use prompt_footer::history_search::{
    backspace_cancels_search, history_search_binding_active, history_search_bindings_active,
    HistorySearchEvent, HistorySearchState, PromptBuffer,
};
use prompt_footer::history_search_input::{history_search_input, search_label};
use prompt_footer::text::{clamp_cursor, rfind};

fn buffer(input: &str, cursor: usize) -> PromptBuffer {
    PromptBuffer {
        input: input.to_string(),
        cursor_offset: cursor,
    }
}

#[test]
fn cancel_restores_the_original_prompt_after_searching() {
    let mut state = HistorySearchState::new();
    let mut buf = buffer("draft", 3);
    state.start(&buf);
    assert!(state.is_active());
    state.set_query("git".to_string());
    assert_eq!(state.history_lookup("git", false), Some(Vec::new()));
    state.query_changed(&mut buf, Some("git status".to_string()));
    assert_eq!(buf.input, "git status");
    assert_eq!(buf.cursor_offset, 0);
    state.cancel(&mut buf);
    assert_eq!(buf, buffer("draft", 3));
    assert!(!state.is_active());
    assert_eq!(state.query(), "");
}

#[test]
fn resumed_search_skips_seen_matches_and_marks_failure() {
    let mut state = HistorySearchState::new();
    let mut buf = buffer("", 0);
    state.start(&buf);
    state.set_query("log".to_string());
    state.query_changed(&mut buf, Some("git log --oneline".to_string()));
    assert_eq!(
        state.history_lookup("log", true),
        Some(vec!["git log --oneline".to_string()])
    );
    state.search_next(&mut buf, Some("cat changelog".to_string()));
    assert_eq!(buf.input, "cat changelog");
    assert_eq!(buf.cursor_offset, 10);
    assert_eq!(
        state.history_lookup("log", true),
        Some(vec!["git log --oneline".to_string(), "cat changelog".to_string()])
    );
    state.search_next(&mut buf, None);
    assert!(state.failed_match());
    assert_eq!(buf.input, "cat changelog");
    assert_eq!(state.current_match(), Some("cat changelog".to_string()));
}

#[test]
fn accept_keeps_the_match_with_the_cursor_clamped() {
    let mut state = HistorySearchState::new();
    let mut buf = buffer("a much longer draft", 15);
    state.start(&buf);
    state.set_query("é".to_string());
    state.query_changed(&mut buf, Some("café".to_string()));
    assert_eq!(buf.cursor_offset, 3);
    buf.cursor_offset = 15;
    state.accept(&mut buf);
    assert_eq!(buf, buffer("café", 5));
    assert!(!state.is_active());
}

#[test]
fn accept_without_match_restores_and_execute_submits() {
    let mut state = HistorySearchState::new();
    let mut buf = buffer("keep me", 99);
    state.start(&buf);
    state.accept(&mut buf);
    assert_eq!(buf, buffer("keep me", 7));

    state.start(&buf);
    state.execute();
    assert!(!state.is_active());
    assert_eq!(state.take_pending_submit(), Some("keep me".to_string()));
    assert_eq!(state.take_pending_submit(), None);
}

#[test]
fn execute_never_submits_blank_text() {
    let mut state = HistorySearchState::new();
    let buf = buffer(" \t ", 1);
    state.start(&buf);
    state.execute();
    assert_eq!(state.take_pending_submit(), None);

    let mut buf = buffer("x", 1);
    state.start(&buf);
    state.set_query("y".to_string());
    state.query_changed(&mut buf, None);
    state.execute();
    assert_eq!(state.take_pending_submit(), None);
}

#[test]
fn empty_query_restores_the_original_prompt() {
    let mut state = HistorySearchState::new();
    let mut buf = buffer("orig", 2);
    state.start(&buf);
    state.set_query("o".to_string());
    state.query_changed(&mut buf, Some("foo".to_string()));
    assert_eq!(buf.input, "foo");
    state.set_query(String::new());
    assert_eq!(state.history_lookup("", false), None);
    state.query_changed(&mut buf, None);
    assert_eq!(buf, buffer("orig", 2));
    assert_eq!(state.current_match(), None);
    assert!(state.is_active());
}

#[test]
fn query_change_outside_a_search_does_nothing() {
    let mut state = HistorySearchState::new();
    let mut buf = buffer("text", 4);
    state.set_query("t".to_string());
    state.query_changed(&mut buf, Some("other".to_string()));
    assert_eq!(buf, buffer("text", 4));
    assert!(!state.is_active());
}

#[test]
fn binding_gates() {
    assert!(!history_search_binding_active(true, true, false));
    assert!(history_search_binding_active(false, true, false));
    assert!(!history_search_binding_active(false, true, true));
    assert!(history_search_bindings_active(true, true));
    assert!(!history_search_bindings_active(false, true));
    assert!(backspace_cancels_search(true, true, false, true));
    assert!(!backspace_cancels_search(true, true, true, true));
    assert!(!backspace_cancels_search(true, true, false, false));
}

#[test]
fn clamp_cursor_moves_onto_character_boundaries() {
    assert_eq!(clamp_cursor("日本", 4), 3);
    assert_eq!(clamp_cursor("日本", 6), 6);
    assert_eq!(clamp_cursor("日本", 60), 6);
    assert_eq!(clamp_cursor("abc", 0), 0);
    assert_eq!(clamp_cursor("", 5), 0);
}

#[test]
fn rfind_finds_the_last_byte_occurrence() {
    assert_eq!(rfind("abcabc", "bc"), Some(4));
    assert_eq!(rfind("abc", "x"), None);
    assert_eq!(rfind("ab", "abc"), None);
    assert_eq!(rfind("日本日本", "日"), Some(6));
    assert_eq!(rfind("abc", ""), Some(3));
}

#[test]
fn history_search_input_measures_display_width() {
    let layout = history_search_input("日本", false).unwrap();
    assert_eq!(layout.columns, 5);
    assert_eq!(layout.cursor_offset, 6);
    assert!(!layout.failed_match);
    assert!(layout.dim_label);
    let empty = history_search_input("", true).unwrap();
    assert_eq!(empty.columns, 1);
    assert_eq!(empty.cursor_offset, 0);
    assert_eq!(search_label(true), "no matching prompt:");
    assert_eq!(search_label(false), "search prompts:");
}

#[test]
fn history_picker_keeps_the_search_off() {
    let mut state = HistorySearchState::new();
    let mut buf = buffer("draft", 2);
    for event in [
        HistorySearchEvent::Start,
        HistorySearchEvent::Next { found: Some("x".to_string()) },
        HistorySearchEvent::QueryEdited { query: "d".to_string(), found: Some("dd".to_string()) },
        HistorySearchEvent::Accept,
        HistorySearchEvent::Execute,
        HistorySearchEvent::Backspace { is_release: false, query_at_render_empty: true },
    ] {
        state.handle(&mut buf, event, true, true);
        assert!(!state.is_active());
    }
    assert_eq!(buf, buffer("draft", 2));
    assert_eq!(state.take_pending_submit(), None);
}

#[test]
fn events_drive_a_search_without_the_picker() {
    let mut state = HistorySearchState::new();
    let mut buf = buffer("draft", 2);
    state.handle(&mut buf, HistorySearchEvent::Start, false, true);
    assert!(state.is_active());
    state.handle(
        &mut buf,
        HistorySearchEvent::QueryEdited { query: "ls".to_string(), found: Some("ls -la".to_string()) },
        false,
        true,
    );
    assert_eq!(buf.input, "ls -la");
    assert_eq!(state.query(), "ls");
    state.handle(
        &mut buf,
        HistorySearchEvent::Backspace { is_release: false, query_at_render_empty: false },
        false,
        true,
    );
    assert!(state.is_active());
    state.handle(&mut buf, HistorySearchEvent::Execute, false, true);
    assert!(!state.is_active());
    assert_eq!(state.take_pending_submit(), Some("ls -la".to_string()));
}

#[test]
fn cancel_moves_an_off_text_start_cursor_onto_the_text() {
    let mut state = HistorySearchState::new();
    let mut buf = buffer("日本", 4);
    state.start(&buf);
    state.set_query("x".to_string());
    state.query_changed(&mut buf, Some("xyz".to_string()));
    state.set_query("xy".to_string());
    state.cancel(&mut buf);
    assert_eq!(buf, buffer("日本", 3));
}
