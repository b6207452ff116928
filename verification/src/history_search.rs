//! Reverse prompt-history search. While a search is active the prompt shows
//! the newest history entry that contains the query; searching again resumes
//! to the next older match; accepting keeps the match in the prompt,
//! cancelling puts the original prompt back, and executing submits the match
//! (or the original prompt when the query is empty).
//!
//! The history itself is read by the caller: `history_lookup` says which
//! query to look up and which entries to skip, and `search` takes the entry
//! that the lookup found.
use crate::text::{
    byte_len, clamp_cursor, clamp_cursor_spec, is_blank, is_cursor_on, lemma_clamp_cursor,
    lemma_occurrence_on_boundary, lemma_text_ends_are_boundaries, rfind, rfind_spec, str_is_blank,
};
use vstd::prelude::*;

verus! {

/// The prompt being edited: its text and its cursor, a byte offset.
#[derive(Clone, Debug, PartialEq, Eq, Default)]
pub struct PromptBuffer {
    pub input: String,
    pub cursor_offset: usize,
}

/// What a prompt buffer holds.
pub struct BufferView {
    pub input: Seq<char>,
    pub cursor_offset: int,
}

impl View for PromptBuffer {
    type V = BufferView;

    open spec fn view(&self) -> BufferView {
        BufferView { input: self.input@, cursor_offset: self.cursor_offset as int }
    }
}

/// The state of the history search.
#[derive(Clone, Debug)]
pub struct HistorySearchState {
    is_searching: bool,
    query: String,
    failed_match: bool,
    current_match: Option<String>,
    original_input: String,
    original_cursor_offset: usize,
    seen: Vec<String>,
    pending_submit: Option<String>,
}

/// What the history search holds.
pub struct HistorySearchView {
    pub is_searching: bool,
    pub query: Seq<char>,
    /// The last lookup found nothing more; the last match stays shown.
    pub failed_match: bool,
    pub current_match: Option<Seq<char>>,
    /// The prompt as it was when the search started.
    pub original_input: Seq<char>,
    pub original_cursor_offset: int,
    /// The matches shown so far in this round, newest last.
    pub seen: Seq<Seq<char>>,
    /// A prompt to submit, for the owner to take.
    pub pending_submit: Option<Seq<char>>,
}

/// The view of an optional string.
pub open spec fn optional_string_view(o: Option<String>) -> Option<Seq<char>> {
    match o {
        Some(s) => Some(s@),
        None => None,
    }
}

/// The views of a list of strings.
pub open spec fn seen_view(v: Seq<String>) -> Seq<Seq<char>> {
    v.map_values(|s: String| s@)
}

impl View for HistorySearchState {
    type V = HistorySearchView;

    closed spec fn view(&self) -> HistorySearchView {
        HistorySearchView {
            is_searching: self.is_searching,
            query: self.query@,
            failed_match: self.failed_match,
            current_match: optional_string_view(self.current_match),
            original_input: self.original_input@,
            original_cursor_offset: self.original_cursor_offset as int,
            seen: seen_view(self.seen@),
            pending_submit: optional_string_view(self.pending_submit),
        }
    }
}

/// No search in progress and nothing remembered of one; only a pending
/// submission is kept.
pub open spec fn cleared(s: HistorySearchView, pending_submit: Option<Seq<char>>) -> HistorySearchView {
    HistorySearchView {
        is_searching: false,
        query: Seq::empty(),
        failed_match: false,
        current_match: None,
        original_input: Seq::empty(),
        original_cursor_offset: 0,
        seen: Seq::empty(),
        pending_submit,
    }
}

/// Starting a search remembers the prompt and its cursor, with an empty
/// query, no match and nothing seen.
pub open spec fn start_spec(s: HistorySearchView, b: BufferView) -> HistorySearchView {
    HistorySearchView {
        is_searching: true,
        query: Seq::empty(),
        failed_match: false,
        current_match: None,
        original_input: b.input,
        original_cursor_offset: b.cursor_offset,
        seen: Seq::empty(),
        pending_submit: s.pending_submit,
    }
}

/// The prompt put back as it was when the search started, its cursor moved
/// onto the text.
pub open spec fn restored_spec(s: HistorySearchView) -> BufferView {
    BufferView {
        input: s.original_input,
        cursor_offset: clamp_cursor_spec(s.original_input, s.original_cursor_offset),
    }
}

/// Accepting keeps the current match in the prompt, its cursor where it was
/// (moved onto the match); without a match the original prompt comes back.
/// Either way the search ends.
pub open spec fn accept_spec(s: HistorySearchView, b: BufferView) -> (HistorySearchView, BufferView) {
    let buffer = match s.current_match {
        Some(m) => BufferView {
            input: m,
            cursor_offset: clamp_cursor_spec(
                m,
                if b.cursor_offset <= byte_len(m) {
                    b.cursor_offset
                } else {
                    byte_len(m)
                },
            ),
        },
        None => restored_spec(s),
    };
    (cleared(s, s.pending_submit), buffer)
}

/// Cancelling puts the original prompt back and ends the search.
pub open spec fn cancel_spec(s: HistorySearchView) -> (HistorySearchView, BufferView) {
    (cleared(s, s.pending_submit), restored_spec(s))
}

/// Executing submits the original prompt when the query is empty, else the
/// current match, unless that is missing or blank; the search ends and the
/// prompt is left as it is.
pub open spec fn execute_spec(s: HistorySearchView) -> HistorySearchView {
    let text = if s.query.len() == 0 {
        Some(s.original_input)
    } else {
        s.current_match
    };
    let pending = match text {
        Some(t) => if !is_blank(t) {
            Some(t)
        } else {
            s.pending_submit
        },
        None => s.pending_submit,
    };
    cleared(s, pending)
}

/// The entries a lookup for `query` must skip: none for a new query, the ones
/// already shown when resuming. An empty query needs no lookup.
pub open spec fn history_lookup_spec(s: HistorySearchView, query: Seq<char>, resume: bool) -> Option<
    Seq<Seq<char>>,
> {
    if query.len() == 0 {
        None
    } else if resume {
        Some(s.seen)
    } else {
        Some(Seq::empty())
    }
}

/// The cursor on a match: at the last occurrence of the query in it (at its
/// end if there is none), moved onto the text.
pub open spec fn match_cursor_spec(entry: Seq<char>, query: Seq<char>) -> int {
    clamp_cursor_spec(
        entry,
        match rfind_spec(entry, query) {
            Some(i) => i,
            None => byte_len(entry),
        },
    )
}

/// A search step. An empty query puts the original prompt back and forgets
/// the match. Otherwise a new query (not `resume`) forgets what was seen; a
/// found entry becomes the current match and the prompt, with the cursor on
/// the query's last occurrence, and is remembered as seen; when nothing is
/// found the search is marked failed and the last match stays.
pub open spec fn search_spec(
    s: HistorySearchView,
    b: BufferView,
    query: Seq<char>,
    resume: bool,
    found: Option<Seq<char>>,
) -> (HistorySearchView, BufferView) {
    if query.len() == 0 {
        (
            HistorySearchView {
                current_match: None,
                failed_match: false,
                seen: Seq::empty(),
                ..s
            },
            restored_spec(s),
        )
    } else {
        let seen = if resume {
            s.seen
        } else {
            Seq::empty()
        };
        match found {
            Some(entry) => (
                HistorySearchView {
                    seen: seen.push(entry),
                    failed_match: false,
                    current_match: Some(entry),
                    ..s
                },
                BufferView { input: entry, cursor_offset: match_cursor_spec(entry, query) },
            ),
            None => (HistorySearchView { seen, failed_match: true, ..s }, b),
        }
    }
}

/// Taking the pending submission hands it over and leaves none.
pub open spec fn take_pending_spec(s: HistorySearchView) -> (Option<Seq<char>>, HistorySearchView) {
    (s.pending_submit, HistorySearchView { pending_submit: None, ..s })
}

impl HistorySearchState {
    /// No search in progress.
    pub fn new() -> (r: Self)
        ensures
            r@ == cleared(r@, None),
    {
        let r = HistorySearchState {
            is_searching: false,
            query: String::new(),
            failed_match: false,
            current_match: None,
            original_input: String::new(),
            original_cursor_offset: 0,
            seen: Vec::new(),
            pending_submit: None,
        };
        assert(seen_view(r.seen@) =~= Seq::<Seq<char>>::empty());
        r
    }

    /// A search is in progress.
    pub fn is_active(&self) -> (b: bool)
        ensures
            b == self@.is_searching,
    {
        self.is_searching
    }

    /// The query being searched for.
    pub fn query(&self) -> (q: &String)
        ensures
            q@ == self@.query,
    {
        &self.query
    }

    /// The last lookup found nothing more.
    pub fn failed_match(&self) -> (b: bool)
        ensures
            b == self@.failed_match,
    {
        self.failed_match
    }

    /// The history entry shown in place of the prompt.
    pub fn current_match(&self) -> (m: Option<String>)
        ensures
            optional_string_view(m) == self@.current_match,
    {
        self.current_match.clone()
    }

    /// The query field was edited.
    pub fn set_query(&mut self, query: String)
        ensures
            final(self)@ == (HistorySearchView { query: query@, ..old(self)@ }),
    {
        self.query = query;
    }

    /// Takes the prompt waiting to be submitted, leaving none.
    pub fn take_pending_submit(&mut self) -> (r: Option<String>)
        ensures
            (optional_string_view(r), final(self)@) == take_pending_spec(old(self)@),
    {
        let value = self.pending_submit.clone();
        if value.is_some() {
            self.pending_submit = None;
        }
        value
    }

    /// Starts a search over the given prompt.
    pub fn start(&mut self, buffer: &PromptBuffer)
        ensures
            final(self)@ == start_spec(old(self)@, buffer@),
    {
        self.is_searching = true;
        self.query = String::new();
        self.failed_match = false;
        self.current_match = None;
        self.original_input = buffer.input.clone();
        self.original_cursor_offset = buffer.cursor_offset;
        self.seen = Vec::new();
        proof {
            assert(seen_view(self.seen@) =~= Seq::<Seq<char>>::empty());
        }
    }

    /// Ends the search, keeping only a pending submission.
    fn clear(&mut self)
        ensures
            final(self)@ == cleared(old(self)@, old(self)@.pending_submit),
    {
        self.is_searching = false;
        self.query = String::new();
        self.failed_match = false;
        self.current_match = None;
        self.original_input = String::new();
        self.original_cursor_offset = 0;
        self.seen = Vec::new();
        proof {
            assert(seen_view(self.seen@) =~= Seq::<Seq<char>>::empty());
        }
    }

    /// Puts the original prompt back into the buffer.
    fn restore_original(&self, buffer: &mut PromptBuffer)
        ensures
            final(buffer)@ == restored_spec(self@),
    {
        let original = self.original_input.clone();
        let cursor = clamp_cursor(original.as_str(), self.original_cursor_offset);
        buffer.cursor_offset = cursor;
        buffer.input = original;
    }

    /// Accepts the current match (or restores the prompt without one) and
    /// ends the search.
    pub fn accept(&mut self, buffer: &mut PromptBuffer)
        ensures
            (final(self)@, final(buffer)@) == accept_spec(old(self)@, old(buffer)@),
    {
        match &self.current_match {
            Some(value) => {
                let len = value.as_str().as_bytes().len();
                let offset = if buffer.cursor_offset <= len {
                    buffer.cursor_offset
                } else {
                    len
                };
                let cursor = clamp_cursor(value.as_str(), offset);
                buffer.input = value.clone();
                buffer.cursor_offset = cursor;
            },
            None => {
                self.restore_original(buffer);
            },
        }
        self.clear();
    }

    /// Restores the original prompt and ends the search.
    pub fn cancel(&mut self, buffer: &mut PromptBuffer)
        ensures
            (final(self)@, final(buffer)@) == cancel_spec(old(self)@),
    {
        self.restore_original(buffer);
        self.clear();
    }

    /// Submits the match (or the original prompt for an empty query) unless
    /// it is blank, and ends the search.
    pub fn execute(&mut self)
        ensures
            final(self)@ == execute_spec(old(self)@),
    {
        let text = if self.query.as_str().is_empty() {
            Some(self.original_input.clone())
        } else {
            self.current_match.clone()
        };
        if let Some(t) = text {
            if !str_is_blank(t.as_str()) {
                self.pending_submit = Some(t);
            }
        }
        self.clear();
    }

    /// The history entries a lookup for `query` must skip, or `None` when an
    /// empty query needs no lookup.
    pub fn history_lookup(&self, query: &str, resume: bool) -> (r: Option<Vec<String>>)
        ensures
            match r {
                Some(v) => history_lookup_spec(self@, query@, resume) == Some(seen_view(v@)),
                None => history_lookup_spec(self@, query@, resume) is None,
            },
    {
        if query.is_empty() {
            None
        } else if resume {
            Some(self.seen.clone())
        } else {
            let v: Vec<String> = Vec::new();
            assert(seen_view(v@) =~= Seq::<Seq<char>>::empty());
            Some(v)
        }
    }

    /// One search step for `query`, given the entry that the lookup named by
    /// `history_lookup` found.
    pub fn search(
        &mut self,
        buffer: &mut PromptBuffer,
        query: &str,
        resume: bool,
        found: Option<String>,
    )
        ensures
            (final(self)@, final(buffer)@) == search_spec(
                old(self)@,
                old(buffer)@,
                query@,
                resume,
                optional_string_view(found),
            ),
    {
        if query.is_empty() {
            self.restore_original(buffer);
            self.current_match = None;
            self.failed_match = false;
            self.seen = Vec::new();
            proof {
                assert(seen_view(self.seen@) =~= Seq::<Seq<char>>::empty());
            }
            return;
        }
        if !resume {
            self.seen = Vec::new();
            proof {
                assert(seen_view(self.seen@) =~= Seq::<Seq<char>>::empty());
            }
        }
        match found {
            Some(entry) => {
                let match_offset = match rfind(entry.as_str(), query) {
                    Some(i) => i,
                    None => entry.as_str().as_bytes().len(),
                };
                let ghost old_seen = self.seen@;
                self.seen.push(entry.clone());
                proof {
                    assert(seen_view(self.seen@) =~= seen_view(old_seen).push(entry@));
                }
                self.failed_match = false;
                self.current_match = Some(entry.clone());
                buffer.cursor_offset = clamp_cursor(entry.as_str(), match_offset);
                buffer.input = entry;
            },
            None => {
                self.failed_match = true;
            },
        }
    }

    /// The search-next binding: resume the current query past the matches
    /// already shown.
    pub fn search_next(&mut self, buffer: &mut PromptBuffer, found: Option<String>)
        ensures
            (final(self)@, final(buffer)@) == search_spec(
                old(self)@,
                old(buffer)@,
                old(self)@.query,
                true,
                optional_string_view(found),
            ),
    {
        let query = self.query.clone();
        self.search(buffer, query.as_str(), true, found);
    }

    /// The query changed: while searching, restart from the newest entry.
    pub fn query_changed(&mut self, buffer: &mut PromptBuffer, found: Option<String>)
        ensures
            old(self)@.is_searching ==> (final(self)@, final(buffer)@) == search_spec(
                old(self)@,
                old(buffer)@,
                old(self)@.query,
                false,
                optional_string_view(found),
            ),
            !old(self)@.is_searching ==> final(self)@ == old(self)@ && final(buffer)@ == old(
                buffer,
            )@,
    {
        if self.is_searching {
            let query = self.query.clone();
            self.search(buffer, query.as_str(), false, found);
        }
    }
}

/// What can happen between starting and ending a search: a search step (the
/// query, whether it resumes, and what the lookup found), or an edit of the
/// query field.
pub enum SearchStep {
    Search { query: Seq<char>, resume: bool, found: Option<Seq<char>> },
    Edit { query: Seq<char> },
}

/// The state after running `steps` in order.
pub open spec fn search_steps(s: HistorySearchView, b: BufferView, steps: Seq<SearchStep>) -> (
    HistorySearchView,
    BufferView,
)
    decreases steps.len(),
{
    if steps.len() == 0 {
        (s, b)
    } else {
        let prev = search_steps(s, b, steps.drop_last());
        match steps.last() {
            SearchStep::Search { query, resume, found } => search_spec(
                prev.0,
                prev.1,
                query,
                resume,
                found,
            ),
            SearchStep::Edit { query } => (HistorySearchView { query, ..prev.0 }, prev.1),
        }
    }
}

/// Searching and editing the query never touch what was remembered of the
/// prompt when the search started, nor whether a search runs, nor a pending
/// submission.
pub proof fn lemma_search_keeps_original(s: HistorySearchView, b: BufferView, steps: Seq<SearchStep>)
    ensures
        search_steps(s, b, steps).0.original_input == s.original_input,
        search_steps(s, b, steps).0.original_cursor_offset == s.original_cursor_offset,
        search_steps(s, b, steps).0.is_searching == s.is_searching,
        search_steps(s, b, steps).0.pending_submit == s.pending_submit,
    decreases steps.len(),
{
    if steps.len() > 0 {
        lemma_search_keeps_original(s, b, steps.drop_last());
    }
}

/// Cancelling a search gives back the prompt as it was when the search
/// started, its cursor moved onto the text (and so exactly the same cursor
/// when it already lay on the text), whatever was searched or typed into the
/// query in between; the search ends and a pending submission is kept.
pub proof fn lemma_cancel_restores_prompt(s: HistorySearchView, b: BufferView, steps: Seq<SearchStep>)
    ensures
        ({
            let searched = search_steps(start_spec(s, b), b, steps);
            let (after, buffer) = cancel_spec(searched.0);
            &&& buffer == BufferView {
                input: b.input,
                cursor_offset: clamp_cursor_spec(b.input, b.cursor_offset),
            }
            &&& is_cursor_on(b.input, b.cursor_offset) ==> buffer == b
            &&& after == cleared(after, s.pending_submit)
            &&& !after.is_searching
            &&& after.pending_submit == s.pending_submit
        }),
{
    lemma_search_keeps_original(start_spec(s, b), b, steps);
    lemma_clamp_cursor(b.input, b.cursor_offset);
}

/// Clearing twice is clearing once.
pub proof fn lemma_clear_is_idempotent(s: HistorySearchView, pending_submit: Option<Seq<char>>)
    ensures
        cleared(cleared(s, pending_submit), pending_submit) == cleared(s, pending_submit),
{
}

/// Accepting without a match is cancelling.
pub proof fn lemma_accept_without_match_is_cancel(s: HistorySearchView, b: BufferView)
    requires
        s.current_match is None,
    ensures
        accept_spec(s, b) == cancel_spec(s),
{
}

/// Whatever the search puts into the prompt has its cursor on the text:
/// after accepting, cancelling, or a search step that changed the prompt.
pub proof fn lemma_cursor_lands_on_text(
    s: HistorySearchView,
    b: BufferView,
    query: Seq<char>,
    resume: bool,
    found: Option<Seq<char>>,
)
    ensures
        is_cursor_on(accept_spec(s, b).1.input, accept_spec(s, b).1.cursor_offset),
        is_cursor_on(cancel_spec(s).1.input, cancel_spec(s).1.cursor_offset),
        search_spec(s, b, query, resume, found).1 != b ==> is_cursor_on(
            search_spec(s, b, query, resume, found).1.input,
            search_spec(s, b, query, resume, found).1.cursor_offset,
        ),
{
    lemma_clamp_cursor(s.original_input, s.original_cursor_offset);
    if let Some(m) = s.current_match {
        lemma_clamp_cursor(
            m,
            if b.cursor_offset <= byte_len(m) {
                b.cursor_offset
            } else {
                byte_len(m)
            },
        );
    }
    if let Some(e) = found {
        lemma_clamp_cursor(
            e,
            match rfind_spec(e, query) {
                Some(i) => i,
                None => byte_len(e),
            },
        );
    }
}

/// Executing only ever queues a prompt that is not blank; when the query is
/// empty that prompt is the one the search started from.
pub proof fn lemma_execute_submits_only_non_blank(s: HistorySearchView)
    ensures
        execute_spec(s).pending_submit != s.pending_submit ==> (execute_spec(
            s,
        ).pending_submit matches Some(t) && !is_blank(t)),
        s.query.len() == 0 && !is_blank(s.original_input) ==> execute_spec(s).pending_submit
            == Some(s.original_input),
        !execute_spec(s).is_searching,
{
}

/// Taking the pending submission twice gives nothing the second time and
/// changes nothing more.
pub proof fn lemma_take_pending_twice(s: HistorySearchView)
    ensures
        take_pending_spec(take_pending_spec(s).1).0 is None,
        take_pending_spec(take_pending_spec(s).1).1 == take_pending_spec(s).1,
{
}

/// A found entry is shown and remembered, so that a resumed lookup skips it;
/// a new query forgets what the previous round had seen.
pub proof fn lemma_search_remembers_match(
    s: HistorySearchView,
    b: BufferView,
    query: Seq<char>,
    resume: bool,
    entry: Seq<char>,
)
    requires
        query.len() > 0,
    ensures
        ({
            let (after, buffer) = search_spec(s, b, query, resume, Some(entry));
            &&& buffer.input == entry
            &&& after.current_match == Some(entry)
            &&& history_lookup_spec(after, query, true) == Some(
                (if resume {
                    s.seen
                } else {
                    Seq::empty()
                }).push(entry),
            )
            &&& history_lookup_spec(after, query, true)->0.contains(entry)
        }),
{
    let seen = (if resume {
        s.seen
    } else {
        Seq::<Seq<char>>::empty()
    }).push(entry);
    assert(seen[seen.len() - 1] == entry);
}

/// A found entry is shown with the cursor at the start of the query's last
/// occurrence in it, or at its end when the query does not occur in it.
pub proof fn lemma_match_cursor_at_occurrence(entry: Seq<char>, query: Seq<char>)
    requires
        query.len() > 0,
    ensures
        rfind_spec(entry, query) matches Some(i) ==> match_cursor_spec(entry, query) == i,
        rfind_spec(entry, query) is None ==> match_cursor_spec(entry, query) == byte_len(entry),
{
    lemma_text_ends_are_boundaries(entry);
    lemma_clamp_cursor(entry, byte_len(entry));
    if rfind_spec(entry, query) is Some {
        lemma_occurrence_on_boundary(entry, query);
        lemma_clamp_cursor(entry, rfind_spec(entry, query)->0);
    }
}

/// An input to the search: a binding firing, a key, or an edit of the
/// query field. Lookups are done by the caller before the event is handed
/// over: for `Next`, of the current query past the entries already seen; for
/// `QueryEdited`, of the new query from the newest entry.
#[derive(Clone, Debug)]
pub enum HistorySearchEvent {
    Start,
    Next { found: Option<String> },
    Accept,
    Cancel,
    Execute,
    QueryEdited { query: String, found: Option<String> },
    Backspace { is_release: bool, query_at_render_empty: bool },
}

/// What an event carries.
pub enum EventView {
    Start,
    Next { found: Option<Seq<char>> },
    Accept,
    Cancel,
    Execute,
    QueryEdited { query: Seq<char>, found: Option<Seq<char>> },
    Backspace { is_release: bool, query_at_render_empty: bool },
}

impl View for HistorySearchEvent {
    type V = EventView;

    open spec fn view(&self) -> EventView {
        match self {
            HistorySearchEvent::Start => EventView::Start,
            HistorySearchEvent::Next { found } => EventView::Next {
                found: optional_string_view(*found),
            },
            HistorySearchEvent::Accept => EventView::Accept,
            HistorySearchEvent::Cancel => EventView::Cancel,
            HistorySearchEvent::Execute => EventView::Execute,
            HistorySearchEvent::QueryEdited { query, found } => EventView::QueryEdited {
                query: query@,
                found: optional_string_view(*found),
            },
            HistorySearchEvent::Backspace { is_release, query_at_render_empty } =>
                EventView::Backspace {
                is_release: *is_release,
                query_at_render_empty: *query_at_render_empty,
            },
        }
    }
}

/// How the search answers an event. The start binding acts only when the
/// history picker does not own ctrl+r, the prompt has focus and no search
/// runs; next, accept, cancel and execute act only on a focused running
/// search; an edited query is always taken, and restarts a running search;
/// backspace cancels as `backspace_cancels_search` says.
pub open spec fn event_spec(
    s: HistorySearchView,
    b: BufferView,
    e: EventView,
    history_picker: bool,
    focus: bool,
) -> (HistorySearchView, BufferView) {
    let live = focus && s.is_searching;
    match e {
        EventView::Start => if !history_picker && focus && !s.is_searching {
            (start_spec(s, b), b)
        } else {
            (s, b)
        },
        EventView::Next { found } => if live {
            search_spec(s, b, s.query, true, found)
        } else {
            (s, b)
        },
        EventView::Accept => if live {
            accept_spec(s, b)
        } else {
            (s, b)
        },
        EventView::Cancel => if live {
            cancel_spec(s)
        } else {
            (s, b)
        },
        EventView::Execute => if live {
            (execute_spec(s), b)
        } else {
            (s, b)
        },
        EventView::QueryEdited { query, found } => {
            let edited = HistorySearchView { query, ..s };
            if s.is_searching {
                search_spec(edited, b, query, false, found)
            } else {
                (edited, b)
            }
        },
        EventView::Backspace { is_release, query_at_render_empty } => if live && !is_release
            && query_at_render_empty {
            cancel_spec(s)
        } else {
            (s, b)
        },
    }
}

/// The state after answering `events` in order.
pub open spec fn events_spec(
    s: HistorySearchView,
    b: BufferView,
    events: Seq<EventView>,
    history_picker: bool,
    focus: bool,
) -> (HistorySearchView, BufferView)
    decreases events.len(),
{
    if events.len() == 0 {
        (s, b)
    } else {
        let prev = events_spec(s, b, events.drop_last(), history_picker, focus);
        event_spec(prev.0, prev.1, events.last(), history_picker, focus)
    }
}

/// While the history picker owns ctrl+r, an idle search never starts:
/// whatever happens, no search runs, the prompt is never written, and no
/// submission is ever queued.
pub proof fn lemma_picker_keeps_search_off(
    s: HistorySearchView,
    b: BufferView,
    events: Seq<EventView>,
    focus: bool,
)
    requires
        !s.is_searching,
    ensures
        !events_spec(s, b, events, true, focus).0.is_searching,
        events_spec(s, b, events, true, focus).1 == b,
        events_spec(s, b, events, true, focus).0.pending_submit == s.pending_submit,
    decreases events.len(),
{
    if events.len() > 0 {
        lemma_picker_keeps_search_off(s, b, events.drop_last(), focus);
    }
}

impl HistorySearchState {
    /// Answers one event.
    pub fn handle(
        &mut self,
        buffer: &mut PromptBuffer,
        event: HistorySearchEvent,
        history_picker: bool,
        focus: bool,
    )
        ensures
            (final(self)@, final(buffer)@) == event_spec(
                old(self)@,
                old(buffer)@,
                event@,
                history_picker,
                focus,
            ),
    {
        let live = history_search_bindings_active(focus, self.is_searching);
        match event {
            HistorySearchEvent::Start => {
                if history_search_binding_active(history_picker, focus, self.is_searching) {
                    self.start(buffer);
                }
            },
            HistorySearchEvent::Next { found } => {
                if live {
                    self.search_next(buffer, found);
                }
            },
            HistorySearchEvent::Accept => {
                if live {
                    self.accept(buffer);
                }
            },
            HistorySearchEvent::Cancel => {
                if live {
                    self.cancel(buffer);
                }
            },
            HistorySearchEvent::Execute => {
                if live {
                    self.execute();
                }
            },
            HistorySearchEvent::QueryEdited { query, found } => {
                self.set_query(query);
                self.query_changed(buffer, found);
            },
            HistorySearchEvent::Backspace { is_release, query_at_render_empty } => {
                if backspace_cancels_search(
                    focus,
                    self.is_searching,
                    is_release,
                    query_at_render_empty,
                ) {
                    self.cancel(buffer);
                }
            },
        }
    }
}

/// Accepting keeps the shown match as the prompt, with the cursor no further
/// than it was and on the text, and ends the search keeping only a pending
/// submission.
pub proof fn lemma_accept_keeps_match(s: HistorySearchView, b: BufferView, m: Seq<char>)
    requires
        s.current_match == Some(m),
        b.cursor_offset >= 0,
    ensures
        ({
            let (after, buffer) = accept_spec(s, b);
            &&& buffer.input == m
            &&& is_cursor_on(m, buffer.cursor_offset)
            &&& buffer.cursor_offset <= b.cursor_offset
            &&& is_cursor_on(m, b.cursor_offset) ==> buffer.cursor_offset == b.cursor_offset
            &&& !after.is_searching
            &&& after.current_match is None
            &&& after.seen.len() == 0
            &&& after.query.len() == 0
            &&& after.pending_submit == s.pending_submit
        }),
{
    let o = if b.cursor_offset <= byte_len(m) {
        b.cursor_offset
    } else {
        byte_len(m)
    };
    lemma_clamp_cursor(m, o);
}

/// Executing with a query submits the shown match unless it is blank, and
/// submits nothing new without a match; with an empty query it submits the
/// prompt the search started from unless that is blank.
pub proof fn lemma_execute_submits(s: HistorySearchView)
    ensures
        s.query.len() > 0 && s.current_match is Some && !is_blank(s.current_match->0)
            ==> execute_spec(s).pending_submit == s.current_match,
        s.query.len() > 0 && s.current_match is None ==> execute_spec(s).pending_submit
            == s.pending_submit,
        s.query.len() == 0 && !is_blank(s.original_input) ==> execute_spec(s).pending_submit
            == Some(s.original_input),
        is_blank(s.original_input) && s.query.len() == 0 ==> execute_spec(s).pending_submit
            == s.pending_submit,
        !execute_spec(s).is_searching,
{
}

/// A lookup for a new or edited query skips nothing, whatever earlier
/// queries showed, so it finds the newest matching entry; a resumed lookup
/// skips exactly the entries already shown; an empty query needs no lookup.
pub proof fn lemma_lookup_skips(s: HistorySearchView, query: Seq<char>)
    ensures
        query.len() > 0 ==> history_lookup_spec(s, query, false) == Some(Seq::<Seq<char>>::empty()),
        query.len() > 0 ==> history_lookup_spec(s, query, true) == Some(s.seen),
        query.len() == 0 ==> history_lookup_spec(s, query, false) is None && history_lookup_spec(
            s,
            query,
            true,
        ) is None,
{
}

/// Answering the search-next binding on a focused running search keeps
/// everything already shown in the skip list and adds the new match to it,
/// so repeated presses walk to ever older entries; the query and the
/// remembered prompt stay, and when nothing more is found the search is
/// marked failed with the prompt left as it was.
pub proof fn lemma_next_resumes(
    s: HistorySearchView,
    b: BufferView,
    found: Option<Seq<char>>,
    history_picker: bool,
)
    requires
        s.is_searching,
        s.query.len() > 0,
    ensures
        ({
            let (after, buffer) = event_spec(
                s,
                b,
                EventView::Next { found },
                history_picker,
                true,
            );
            &&& after.query == s.query
            &&& after.is_searching
            &&& after.original_input == s.original_input
            &&& after.original_cursor_offset == s.original_cursor_offset
            &&& found matches Some(e) ==> {
                &&& after.seen == s.seen.push(e)
                &&& history_lookup_spec(after, s.query, true) == Some(s.seen.push(e))
                &&& after.current_match == Some(e)
                &&& !after.failed_match
                &&& buffer.input == e
            }
            &&& found is None ==> {
                &&& after.seen == s.seen
                &&& after.failed_match
                &&& buffer == b
            }
        }),
{
}

/// An edited query on a running search restarts it from the newest entry:
/// the entries seen under the earlier query are forgotten, and a found entry
/// becomes the only one seen.
pub proof fn lemma_edit_restarts(
    s: HistorySearchView,
    b: BufferView,
    query: Seq<char>,
    found: Option<Seq<char>>,
    history_picker: bool,
    focus: bool,
)
    requires
        s.is_searching,
        query.len() > 0,
    ensures
        ({
            let (after, _) = event_spec(
                s,
                b,
                EventView::QueryEdited { query, found },
                history_picker,
                focus,
            );
            &&& after.query == query
            &&& after.seen == (match found {
                Some(e) => seq![e],
                None => Seq::<Seq<char>>::empty(),
            })
        }),
{
    if let Some(e) = found {
        assert(Seq::<Seq<char>>::empty().push(e) =~= seq![e]);
    }
}

/// The binding that starts a search is live when the history picker does not
/// own ctrl+r, the prompt has focus and no search is running.
pub fn history_search_binding_active(history_picker: bool, focus: bool, is_searching: bool) -> (b:
    bool)
    ensures
        b == (!history_picker && focus && !is_searching),
{
    !history_picker && focus && !is_searching
}

/// The search's own bindings (next, accept, cancel, execute) are live while
/// the prompt has focus and a search is running.
pub fn history_search_bindings_active(focus: bool, is_searching: bool) -> (b: bool)
    ensures
        b == (focus && is_searching),
{
    focus && is_searching
}

/// A backspace cancels the search when it is pressed (not released) while a
/// focused search has an empty query, as the query stood when it was drawn.
pub fn backspace_cancels_search(
    focus: bool,
    is_searching: bool,
    is_release: bool,
    query_at_render_empty: bool,
) -> (b: bool)
    ensures
        b == (focus && is_searching && !is_release && query_at_render_empty),
{
    focus && is_searching && !is_release && query_at_render_empty
}

} // verus!
