//! The language picker: a free-text field whose submission is trimmed, an
//! empty answer meaning "no preference".
use crate::text::{
    byte_len, chars_of, is_white_space_spec, lemma_trim_at, string_from_chars, trim, trim_bounds,
};
use crate::theme::ThemeColor;
use vstd::prelude::*;

verus! {

/// Width of the language field, in columns.
pub const LANGUAGE_PICKER_COLUMNS: usize = 60;

/// The question above the field.
pub const LANGUAGE_PICKER_PROMPT: &'static str = "Enter your preferred response and voice language:";

/// Shown in the empty field.
pub const LANGUAGE_PICKER_PLACEHOLDER: &'static str = "e.g., Japanese, 日本語, Español…";

/// Shown under the field.
pub const LANGUAGE_PICKER_DEFAULT_HINT: &'static str = "Leave empty for default (English)";

/// The pointer drawn before the field.
pub const LANGUAGE_PICKER_POINTER: &'static str = "❯";

/// What the field shows: its text, or the placeholder while it is empty.
pub open spec fn language_field_text_spec(value: Seq<char>) -> Seq<char> {
    if value.len() == 0 {
        LANGUAGE_PICKER_PLACEHOLDER@
    } else {
        value
    }
}

/// The field shows the placeholder while it is empty.
pub fn language_field_shows_placeholder(value: &str) -> (b: bool)
    ensures
        b == (value@.len() == 0),
{
    value.is_empty()
}

/// The placeholder and the default hint are drawn in the inactive color.
pub fn language_picker_hint_color() -> (c: ThemeColor)
    ensures
        c == ThemeColor::Inactive,
{
    ThemeColor::Inactive
}

/// The picker as text: the question, a blank line, the pointer and the
/// field, a blank line, and the default hint.
pub open spec fn language_picker_text_spec(value: Seq<char>) -> Seq<char> {
    LANGUAGE_PICKER_PROMPT@ + "\n\n"@ + LANGUAGE_PICKER_POINTER@ + " "@ + language_field_text_spec(value)
        + "\n\n"@ + LANGUAGE_PICKER_DEFAULT_HINT@
}

/// The picker as text, with `value` in its field.
pub fn language_picker_text(value: &str) -> (s: String)
    ensures
        s@ == language_picker_text_spec(value@),
{
    let mut s = LANGUAGE_PICKER_PROMPT.to_owned();
    s.append("\n\n");
    s.append(LANGUAGE_PICKER_POINTER);
    s.append(" ");
    if value.is_empty() {
        s.append(LANGUAGE_PICKER_PLACEHOLDER);
    } else {
        s.append(value);
    }
    s.append("\n\n");
    s.append(LANGUAGE_PICKER_DEFAULT_HINT);
    s
}

/// The submitted language: the field's text without leading and trailing
/// white space, or `None` when nothing else is left.
pub fn submitted_language(value: &str) -> (r: Option<String>)
    ensures
        r is None <==> trim(value@).len() == 0,
        r matches Some(t) ==> t@ == trim(value@),
{
    let chars = chars_of(value);
    let (start, end) = trim_bounds(&chars);
    if start == end {
        None
    } else {
        Some(string_from_chars(&chars, start, end))
    }
}

/// The field's initial text and cursor: the initial language (empty when
/// there is none), with the cursor after its last byte.
pub fn initial_language_field(initial_language: Option<String>) -> (r: (String, usize))
    ensures
        r.0@ == (match initial_language {
            Some(l) => l@,
            None => Seq::empty(),
        }),
        r.1 == byte_len(r.0@),
{
    let value = match initial_language {
        Some(l) => l,
        None => String::new(),
    };
    let cursor = value.as_str().as_bytes().len();
    (value, cursor)
}


/// A submitted language has no leading or trailing white space, and
/// submitting it again gives it back unchanged.
pub proof fn lemma_submission_is_stable(value: Seq<char>)
    ensures
        trim(value).len() > 0 ==> !is_white_space_spec(trim(value)[0]) && !is_white_space_spec(
            trim(value).last(),
        ),
        trim(trim(value)) == trim(value),
{
    let (start, end) = lemma_trim_at(value);
    let t = trim(value);
    if t.len() > 0 {
        assert(t[0] == value[start]);
        assert(t.last() == value[end - 1]);
        let (s2, e2) = lemma_trim_at(t);
        if s2 > 0 {
            assert(is_white_space_spec(t[0]));
        }
        if e2 < t.len() {
            assert(is_white_space_spec(t[t.len() - 1]));
        }
        assert(t.subrange(s2, e2) =~= t);
    } else {
        let (s2, e2) = lemma_trim_at(t);
    }
}

} // verus!
