use prompt_footer::bridge::FooterItem;
use prompt_footer::left_side::{
    cycle_hint_color, left_side_text_color, mode_indicator, prompt_input_footer_left_side,
    LeftSide, ModeHint, ModeIndicator, Pill, PromptInputFooterLeftSideProps,
};
use prompt_footer::theme::ThemeColor;
use prompt_footer::permission::{PermissionMode, PromptInputMode};

fn render(props: PromptInputFooterLeftSideProps) -> String {
    prompt_input_footer_left_side(&props, None, true).plain_text()
}

fn render_selected(props: PromptInputFooterLeftSideProps, selected: FooterItem) -> String {
    prompt_input_footer_left_side(&props, Some(selected), true).plain_text()
}

fn shells_label(count: usize) -> String {
    if count == 1 {
        "1 shell".to_string()
    } else {
        format!("{count} shells")
    }
}

#[test]
fn exit_and_paste_notices_replace_all_other_parts() {
    let exit = render(PromptInputFooterLeftSideProps {
        exit_hint: Some("Press ctrl+c again to exit".to_string()),
        mode: PromptInputMode::Bash,
        background_task_count: 2,
        background_tasks_label: shells_label(2),
        ..Default::default()
    });
    assert!(exit.contains("Press ctrl+c again to exit"));
    assert!(!exit.contains("bash mode"));
    assert!(!exit.contains("2 shells"));

    let paste = render(PromptInputFooterLeftSideProps {
        is_pasting: true,
        mode: PromptInputMode::Bash,
        ..Default::default()
    });
    assert!(paste.contains("Pasting text…"));
    assert!(!paste.contains("bash mode"));
}

#[test]
fn vim_indicator_is_insert_only_and_hidden_during_search() {
    let insert = render(PromptInputFooterLeftSideProps {
        vim_mode: Some("INSERT".to_string()),
        ..Default::default()
    });
    assert!(insert.contains("-- INSERT --"));
    assert!(!insert.contains("? for shortcuts"));

    let normal = render(PromptInputFooterLeftSideProps {
        vim_mode: Some("NORMAL".to_string()),
        ..Default::default()
    });
    assert!(!normal.contains("-- NORMAL --"));

    let search = render(PromptInputFooterLeftSideProps {
        vim_mode: Some("INSERT".to_string()),
        is_searching: true,
        history_query: "abc".to_string(),
        ..Default::default()
    });
    assert!(search.contains("search prompts: abc"));
    assert!(!search.contains("-- INSERT --"));
}

#[test]
fn permission_cycle_hint_hides_when_two_primary_items_compete() {
    let mode_only = render(PromptInputFooterLeftSideProps {
        permission_mode: PermissionMode::Plan,
        ..Default::default()
    });
    assert!(mode_only.contains("shift+tab to cycle"));

    let with_tasks = render(PromptInputFooterLeftSideProps {
        permission_mode: PermissionMode::Plan,
        background_task_count: 1,
        background_tasks_label: shells_label(1),
        ..Default::default()
    });
    assert!(!with_tasks.contains("shift+tab to cycle"));
}

#[test]
fn bash_mode_owns_the_mode_indicator_position() {
    let text = render(PromptInputFooterLeftSideProps {
        mode: PromptInputMode::Bash,
        permission_mode: PermissionMode::Plan,
        background_task_count: 2,
        background_tasks_label: shells_label(2),
        ..Default::default()
    });
    assert!(text.contains("! for bash mode"));
    assert!(!text.contains("plan mode"));
    assert!(!text.contains("2 shells"));
}

#[test]
fn tasks_pill_renders_the_pill_label_verbatim() {
    let text = render(PromptInputFooterLeftSideProps {
        background_task_count: 1,
        background_tasks_label: "1 local agent".to_string(),
        ..Default::default()
    });
    assert!(text.contains("1 local agent"), "canvas=\n{text}");
    assert!(text.contains("↓ to manage"), "canvas=\n{text}");
    assert!(!text.contains("1 task"), "canvas=\n{text}");
}

#[test]
fn idle_left_side_is_the_shortcut_hint() {
    assert_eq!(render(PromptInputFooterLeftSideProps::default()), "? for shortcuts");
    let suppressed = render(PromptInputFooterLeftSideProps {
        suppress_hint: true,
        ..Default::default()
    });
    assert_eq!(suppressed, "");
}

#[test]
fn permission_mode_labels_and_symbols() {
    let plan = render(PromptInputFooterLeftSideProps {
        permission_mode: PermissionMode::Plan,
        ..Default::default()
    });
    assert_eq!(plan, "⏸ plan mode (shift+tab to cycle)");
    let bypass = render(PromptInputFooterLeftSideProps {
        permission_mode: PermissionMode::BypassPermissions,
        suppress_hint: true,
        ..Default::default()
    });
    assert_eq!(bypass, "⏵⏵ bypass permissions (shift+tab to cycle)");
    let bubble = render(PromptInputFooterLeftSideProps {
        permission_mode: PermissionMode::Bubble,
        ..Default::default()
    });
    assert_eq!(bubble, "default (shift+tab to cycle)");
}

#[test]
fn teammate_pill_counts_and_pluralizes() {
    let one = render(PromptInputFooterLeftSideProps {
        teammate_count: 1,
        ..Default::default()
    });
    assert_eq!(one, "1 teammate");
    let many = render(PromptInputFooterLeftSideProps {
        teammate_count: 12,
        ..Default::default()
    });
    assert_eq!(many, "12 teammates");
    let selected = render_selected(
        PromptInputFooterLeftSideProps {
            teammate_count: 3,
            ..Default::default()
        },
        FooterItem::Teams,
    );
    assert_eq!(selected, "3 teammates · Enter to view");
}

#[test]
fn selected_tasks_pill_offers_enter_to_view() {
    let text = render_selected(
        PromptInputFooterLeftSideProps {
            background_task_count: 2,
            background_tasks_label: shells_label(2),
            ..Default::default()
        },
        FooterItem::Tasks,
    );
    assert_eq!(text, "2 shells Enter to view tasks");
}

#[test]
fn failed_search_uses_the_no_match_label() {
    let text = render(PromptInputFooterLeftSideProps {
        is_searching: true,
        history_failed_match: true,
        history_query: "zz".to_string(),
        ..Default::default()
    });
    assert!(text.starts_with("no matching prompt: zz"), "canvas=\n{text}");
}

#[test]
fn loading_hides_the_shortcut_hint() {
    let text = render(PromptInputFooterLeftSideProps {
        is_loading: true,
        ..Default::default()
    });
    assert_eq!(text, "");
}

#[test]
fn left_side_colors() {
    let bash = mode_indicator(
        PromptInputMode::Bash,
        true,
        false,
        PermissionMode::Plan,
        0,
        &String::new(),
        0,
        None,
    );
    assert_eq!(bash, ModeIndicator::BashMode);
    assert_eq!(bash.banner_color(), Some(ThemeColor::BashBorder));
    let parts = mode_indicator(
        PromptInputMode::Prompt,
        true,
        false,
        PermissionMode::Default,
        0,
        &String::new(),
        0,
        None,
    );
    assert_eq!(parts.banner_color(), None);
    let selected = Pill { label: "1 shell".to_string(), selected: true };
    assert_eq!(selected.colors(), (ThemeColor::InverseText, Some(ThemeColor::Suggestion)));
    let plain = Pill { label: "1 shell".to_string(), selected: false };
    assert_eq!(plain.colors(), (ThemeColor::Inactive, None));
    assert_eq!(cycle_hint_color(), ThemeColor::Inactive);
    assert_eq!(left_side_text_color(), ThemeColor::Inactive);
    assert_eq!(ModeHint::ForShortcuts.color(), ThemeColor::Inactive);
    let exit = prompt_input_footer_left_side(
        &PromptInputFooterLeftSideProps {
            exit_hint: Some("bye".to_string()),
            ..Default::default()
        },
        None,
        false,
    );
    assert_eq!(exit, LeftSide::ExitHint("bye".to_string()));
}
