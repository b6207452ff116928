use prompt_footer::language_picker::{
    initial_language_field, language_field_shows_placeholder, language_picker_text,
    submitted_language,
    LANGUAGE_PICKER_DEFAULT_HINT,
};

#[test]
fn language_picker_submit_trims_and_empties_to_none_like_official() {
    assert_eq!(submitted_language("  日本語  ").as_deref(), Some("日本語"));
    assert_eq!(submitted_language("   "), None);
    assert_eq!(submitted_language(""), None);
}

fn render_picker(initial_language: Option<&str>) -> String {
    let (value, _cursor) = initial_language_field(initial_language.map(str::to_string));
    language_picker_text(&value)
}

#[test]
fn language_picker_renders_official_prompt_placeholder_and_hint() {
    let text = render_picker(None);
    assert!(
        text.contains("Enter your preferred response and voice language:"),
        "canvas=\n{text}"
    );
    assert!(text.contains("❯"), "canvas=\n{text}");
    assert!(
        text.contains("Japanese, 日本語, Español…"),
        "canvas=\n{text}"
    );
    assert!(
        text.contains(LANGUAGE_PICKER_DEFAULT_HINT),
        "canvas=\n{text}"
    );
}

#[test]
fn language_picker_seeds_the_field_from_initial_language() {
    let text = render_picker(Some("Spanish"));
    assert!(text.contains("Spanish"), "canvas=\n{text}");
    assert!(
        !text.contains("Japanese, 日本語"),
        "placeholder should be hidden once language has text; canvas=\n{text}"
    );
}

#[test]
fn submitted_language_trims_unicode_white_space_only_at_the_ends() {
    assert_eq!(
        submitted_language("\u{3000}\tBrazilian Portuguese\u{a0}\n").as_deref(),
        Some("Brazilian Portuguese")
    );
    assert_eq!(submitted_language("\u{2003}\u{205f}"), None);
    assert_eq!(submitted_language("x"), Some("x".to_string()));
}

#[test]
fn submitting_a_submitted_language_gives_it_back() {
    let once = submitted_language("  French \r\n").unwrap();
    assert_eq!(submitted_language(&once), Some(once.clone()));
}

#[test]
fn initial_field_cursor_is_the_byte_length() {
    let (value, cursor) = initial_language_field(Some("日本語".to_string()));
    assert_eq!(value, "日本語");
    assert_eq!(cursor, 9);
    let (empty, cursor) = initial_language_field(None);
    assert_eq!(empty, "");
    assert_eq!(cursor, 0);
}

#[test]
fn placeholder_shows_only_for_an_empty_field() {
    assert!(language_field_shows_placeholder(""));
    assert!(!language_field_shows_placeholder(" "));
}
