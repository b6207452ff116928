//! The history search field drawn in the footer: its label, a cursor that
//! always sits at the end of the query, and a width of one column more than
//! the query's display width.
use crate::text::byte_len;
use unicode_width::UnicodeWidthStr;
use vstd::prelude::*;

verus! {

/// The display width of `s` in terminal columns, as `unicode_width` computes
/// it (ambiguous characters one column wide).
pub uninterp spec fn display_width(s: Seq<char>) -> usize;

/// Calls `UnicodeWidthStr::width` of `unicode_width`. The contract claims only
/// that the result is a function of the characters of `s`, named
/// `display_width`; the width rules themselves are not stated.
#[verifier::external_body]
fn str_display_width(s: &str) -> (w: usize)
    ensures
        w == display_width(s@),
{
    UnicodeWidthStr::width(s)
}

/// The label before the search field.
pub open spec fn search_label_spec(failed_match: bool) -> Seq<char> {
    if failed_match {
        "no matching prompt:"@
    } else {
        "search prompts:"@
    }
}

/// The label before the search field.
pub fn search_label(failed_match: bool) -> (s: &'static str)
    ensures
        s@ == search_label_spec(failed_match),
{
    if failed_match {
        "no matching prompt:"
    } else {
        "search prompts:"
    }
}

/// How the history search field is drawn.
#[derive(Clone, Copy, Debug, PartialEq, Eq, Structural)]
pub struct HistorySearchInputLayout {
    /// The label is drawn dimmed.
    pub dim_label: bool,
    /// Labelled "no matching prompt:" instead of "search prompts:".
    pub failed_match: bool,
    /// The cursor, a byte offset: always the end of the query, since moving
    /// it would end the search.
    pub cursor_offset: usize,
    /// The field's width: the query's display width plus one column for the
    /// cursor.
    pub columns: usize,
}

/// The field's layout for a query of the given display width.
pub open spec fn history_search_input_spec(value: Seq<char>, failed_match: bool, width: usize) -> HistorySearchInputLayout {
    HistorySearchInputLayout {
        dim_label: true,
        failed_match,
        cursor_offset: byte_len(value) as usize,
        columns: (width + 1) as usize,
    }
}

/// The field's layout for `value`, whose display width is `width`.
pub fn history_search_input_layout(value: &str, failed_match: bool, width: usize) -> (r:
    HistorySearchInputLayout)
    requires
        width < usize::MAX,
    ensures
        r == history_search_input_spec(value@, failed_match, width),
        r.cursor_offset == byte_len(value@),
{
    HistorySearchInputLayout {
        dim_label: true,
        failed_match,
        cursor_offset: value.as_bytes().len(),
        columns: width + 1,
    }
}

/// The field's layout for `value`, measuring its display width; `None` only
/// when that width leaves no room for the cursor column.
pub fn history_search_input(value: &str, failed_match: bool) -> (r: Option<
    HistorySearchInputLayout,
>)
    ensures
        r is None <==> display_width(value@) == usize::MAX,
        r matches Some(l) ==> l == history_search_input_spec(
            value@,
            failed_match,
            display_width(value@),
        ),
{
    let width = str_display_width(value);
    if width < usize::MAX {
        Some(history_search_input_layout(value, failed_match, width))
    } else {
        None
    }
}

} // verus!
