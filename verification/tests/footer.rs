use prompt_footer::footer::{
    footer_has_items, footer_height_for, footer_layout, footer_row_should_render, footer_text,
    status_line_default_color, status_line_should_render, FooterProps,
};
use prompt_footer::left_side::prompt_input_footer_left_side;
use prompt_footer::permission::{PermissionMode, PromptInputMode};
use prompt_footer::theme::ThemeColor;

#[test]
fn footer_height_matches_statusline_hint_and_notification_rows() {
    assert_eq!(
        footer_height_for(
            true,
            false,
            false,
            true,
            false,
            PermissionMode::Default,
            0,
            0,
            false,
        ),
        1,
        "configured status line with text suppresses shortcut hint and owns one row"
    );
    assert_eq!(
        footer_height_for(
            false,
            false,
            false,
            false,
            true,
            PermissionMode::Default,
            1,
            0,
            false,
        ),
        1,
        "loading hint and notification share the official footer row"
    );
    assert_eq!(
        footer_height_for(
            false,
            false,
            false,
            true,
            false,
            PermissionMode::Plan,
            0,
            0,
            false,
        ),
        1,
        "active permission mode renders even when shortcut hints are suppressed"
    );
    assert_eq!(
        footer_height_for(
            false,
            false,
            false,
            true,
            false,
            PermissionMode::Default,
            0,
            2,
            false,
        ),
        2,
        "right-side status indicators keep their official stacked footer rows"
    );
}

#[test]
fn footer_height_budgets_the_pill_row_alongside_a_status_line() {
    assert_eq!(
        footer_height_for(
            true,
            false,
            false,
            true,
            false,
            PermissionMode::Default,
            0,
            0,
            true,
        ),
        2,
        "status line row + footer-pill body row must both be budgeted"
    );
    assert_eq!(
        footer_height_for(
            false,
            false,
            false,
            true,
            false,
            PermissionMode::Default,
            0,
            0,
            true,
        ),
        1,
        "footer pills alone own one body row"
    );
    assert!(footer_has_items(PromptInputMode::Prompt, false, 2, 0));
    assert!(footer_has_items(PromptInputMode::Bash, false, 0, 0));
    assert!(!footer_has_items(PromptInputMode::Prompt, false, 0, 0));
}

fn footer_left_text(props: &FooterProps, status_line_configured: bool) -> String {
    let layout = footer_layout(props, status_line_configured, 0);
    let left = prompt_input_footer_left_side(
        &props.left_side_props(layout.suppress_hint, String::new()),
        None,
        false,
    );
    left.plain_text()
}

#[test]
fn footer_renders_loading_and_permission_mode_without_interrupt_hint() {
    let props = FooterProps {
        suppress_hint: false,
        is_loading: true,
        permission_mode: PermissionMode::AcceptEdits,
        ..Default::default()
    };
    let layout = footer_layout(&props, false, 0);
    assert!(layout.has_footer_row);
    let text = footer_left_text(&props, false);
    assert!(text.contains("⏵⏵ accept edits"), "canvas=\n{text}");
    assert!(!text.contains("accept edits on"), "canvas=\n{text}");
    assert!(text.contains("shift+tab to cycle"), "canvas=\n{text}");
    assert!(!text.contains("esc to interrupt"), "canvas=\n{text}");
    assert!(!text.contains("? for shortcuts"), "canvas=\n{text}");
}

#[test]
fn configured_status_line_suppresses_the_default_hint_and_owns_a_row() {
    let props = FooterProps::default();
    let layout = footer_layout(&props, true, 0);
    assert!(layout.has_status_line);
    assert!(layout.suppress_hint);
    assert!(!layout.has_footer_row);
    assert_eq!(layout.body_height, 0);
    assert!(!layout.is_empty());
    let text = footer_left_text(&props, true);
    assert!(!text.contains("? for shortcuts"), "canvas=\n{text}");
}

#[test]
fn idle_footer_without_status_line_shows_the_shortcut_hint() {
    let props = FooterProps::default();
    let layout = footer_layout(&props, false, 0);
    assert!(!layout.has_status_line);
    assert_eq!(layout.body_height, 1);
    assert_eq!(footer_left_text(&props, false), "? for shortcuts");
}

#[test]
fn suppressed_idle_footer_is_empty_and_budgets_nothing() {
    let props = FooterProps {
        suppress_hint: true,
        ..Default::default()
    };
    let layout = footer_layout(&props, false, 0);
    assert!(layout.is_empty());
    assert_eq!(
        footer_height_for(false, false, false, true, false, PermissionMode::Default, 0, 0, false),
        0
    );
}

#[test]
fn exit_hint_takes_the_status_line_row_away() {
    assert!(status_line_should_render(true, false));
    assert!(!status_line_should_render(true, true));
    assert!(!status_line_should_render(false, false));
    assert_eq!(
        footer_height_for(true, true, false, true, false, PermissionMode::Default, 0, 0, false),
        1
    );
}

#[test]
fn right_side_rows_stack_and_loading_alone_draws_no_row() {
    let props = FooterProps {
        status_indicator_count: 1,
        ..Default::default()
    };
    let layout = footer_layout(&props, false, 3);
    assert_eq!(layout.body_height, 4);
    assert!(layout.has_right_side());
    assert!(layout.show_notifications && layout.show_status_indicators);
    assert!(!footer_row_should_render(
        false,
        false,
        true,
        true,
        PermissionMode::Default,
        0,
        0,
        false
    ));
}

/// The status line shows its command's output without the terminal's color
/// escapes.
fn shown_status_text(raw: &str) -> String {
    let mut out = String::new();
    let mut chars = raw.chars().peekable();
    while let Some(c) = chars.next() {
        if c == '\u{1b}' && chars.peek() == Some(&'[') {
            for d in chars.by_ref() {
                if d.is_ascii_alphabetic() {
                    break;
                }
            }
        } else {
            out.push(c);
        }
    }
    out
}

/// Draws the footer as text: the status line (when configured), then the
/// body row with the left side and the right side's rows.
fn render_footer(
    props: &FooterProps,
    status_line: Option<&str>,
    notification_rows: Vec<String>,
) -> String {
    let configured = status_line.is_some();
    let layout = footer_layout(props, configured, notification_rows.len());
    let left = prompt_input_footer_left_side(
        &props.left_side_props(layout.suppress_hint, String::new()),
        None,
        false,
    );
    let status = shown_status_text(status_line.unwrap_or(""));
    footer_text(&layout, &status, &left, &notification_rows)
}

#[test]
fn footer_renders_statusline_above_left_side_and_suppresses_default_hint() {
    let props = FooterProps {
        suppress_hint: false,
        permission_mode: PermissionMode::Default,
        ..Default::default()
    };
    let text = render_footer(&props, Some("\u{1b}[32mrepo main\u{1b}[0m"), Vec::new());

    assert!(text.contains("repo main"), "canvas=\n{text}");
    assert!(!text.contains("? for shortcuts"), "canvas=\n{text}");
}

#[test]
fn footer_places_runtime_notification_in_same_footer_row() {
    let props = FooterProps {
        suppress_hint: false,
        ..Default::default()
    };
    let text = render_footer(&props, None, vec!["footer notification".to_string()]);

    assert!(text.contains("? for shortcuts"), "canvas=\n{text}");
    assert!(text.contains("footer notification"), "canvas=\n{text}");
    assert_eq!(text.lines().count(), 1, "canvas=\n{text}");
}

#[test]
fn footer_renders_status_indicators_as_right_side_rows() {
    let props = FooterProps {
        debug: true,
        suppress_hint: false,
        ..Default::default()
    };
    let rows = vec!["Debug mode".to_string(), "77 tokens".to_string()];
    let layout = footer_layout(&props, false, rows.len());
    assert_eq!(layout.body_height, 2);
    let text = render_footer(&props, None, rows);

    assert!(text.contains("? for shortcuts"), "canvas=\n{text}");
    assert!(text.contains("Debug mode"), "canvas=\n{text}");
    assert!(text.contains("77 tokens"), "canvas=\n{text}");
}

#[test]
fn empty_footer_draws_no_text() {
    let props = FooterProps {
        suppress_hint: true,
        ..Default::default()
    };
    assert_eq!(render_footer(&props, None, Vec::new()), "");
}

#[test]
fn status_line_text_defaults_to_the_inactive_color() {
    assert_eq!(status_line_default_color(), ThemeColor::Inactive);
}
