//! The left side of the prompt footer: exit and paste notices that replace
//! everything else, the inline history search field, the Vim INSERT marker,
//! and the mode indicator (bash banner, permission mode, task and teammate
//! pills, one trailing hint).
use crate::bridge::FooterItem;
use crate::permission::{
    permission_mode_display_label, permission_mode_label_spec, permission_mode_symbol,
    permission_mode_symbol_spec, PermissionMode, PromptInputMode,
};
use crate::theme::ThemeColor;
use crate::text::{decimal_spec, join_parts, join_with_spaces, push_decimal, string_views};
use vstd::prelude::*;

verus! {

/// What the footer's left side is drawn from.
#[derive(Clone, Debug, Default)]
pub struct PromptInputFooterLeftSideProps {
    pub exit_hint: Option<String>,
    pub is_pasting: bool,
    pub vim_mode: Option<String>,
    pub mode: PromptInputMode,
    pub suppress_hint: bool,
    pub is_searching: bool,
    pub history_query: String,
    pub history_failed_match: bool,
    pub is_loading: bool,
    pub permission_mode: PermissionMode,
    pub background_task_count: usize,
    /// The tasks pill's text, computed by the owner from the same running
    /// tasks that `background_task_count` counts.
    pub background_tasks_label: String,
    pub teammate_count: usize,
}

/// The permission mode part of the mode indicator.
#[derive(Clone, Copy, Debug, PartialEq, Eq, Structural)]
pub struct PermissionModePart {
    pub mode: PermissionMode,
    /// Followed by " (shift+tab to cycle)".
    pub show_cycle_hint: bool,
}

/// A task or teammate pill.
#[derive(Clone, Debug, PartialEq, Eq)]
pub struct Pill {
    pub label: String,
    pub selected: bool,
}

/// What a pill shows.
pub struct PillView {
    pub label: Seq<char>,
    pub selected: bool,
}

impl View for Pill {
    type V = PillView;

    open spec fn view(&self) -> PillView {
        PillView { label: self.label@, selected: self.selected }
    }
}

/// The one hint that may close the mode indicator.
#[derive(Clone, Copy, Debug, PartialEq, Eq, Structural)]
pub enum ModeHint {
    EnterToViewTasks,
    DownToManage,
    EnterToView,
    ForShortcuts,
}

/// The mode indicator: the bash banner alone, or its parts in order.
#[derive(Clone, Debug, PartialEq, Eq)]
pub enum ModeIndicator {
    BashMode,
    Parts {
        permission: Option<PermissionModePart>,
        tasks: Option<Pill>,
        teams: Option<Pill>,
        hint: Option<ModeHint>,
    },
}

/// What the mode indicator shows.
pub enum ModeIndicatorView {
    BashMode,
    Parts {
        permission: Option<PermissionModePart>,
        tasks: Option<PillView>,
        teams: Option<PillView>,
        hint: Option<ModeHint>,
    },
}

/// The view of an optional pill.
pub open spec fn optional_pill_view(p: Option<Pill>) -> Option<PillView> {
    match p {
        Some(p) => Some(p@),
        None => None,
    }
}

impl View for ModeIndicator {
    type V = ModeIndicatorView;

    open spec fn view(&self) -> ModeIndicatorView {
        match self {
            ModeIndicator::BashMode => ModeIndicatorView::BashMode,
            ModeIndicator::Parts { permission, tasks, teams, hint } => ModeIndicatorView::Parts {
                permission: *permission,
                tasks: optional_pill_view(*tasks),
                teams: optional_pill_view(*teams),
                hint: *hint,
            },
        }
    }
}

/// The inline history search field of the left side.
#[derive(Clone, Debug, PartialEq, Eq)]
pub struct SearchPart {
    /// Labelled "no matching prompt:" instead of "search prompts:".
    pub failed_match: bool,
    pub query: String,
    /// The cell after the query is drawn inverted as a cursor.
    pub cursor_shown: bool,
}

/// What the search field shows.
pub struct SearchPartView {
    pub failed_match: bool,
    pub query: Seq<char>,
    pub cursor_shown: bool,
}

impl View for SearchPart {
    type V = SearchPartView;

    open spec fn view(&self) -> SearchPartView {
        SearchPartView {
            failed_match: self.failed_match,
            query: self.query@,
            cursor_shown: self.cursor_shown,
        }
    }
}

/// The footer's left side.
#[derive(Clone, Debug, PartialEq, Eq)]
pub enum LeftSide {
    /// The exit hint replaces every other item.
    ExitHint(String),
    /// The paste notice replaces every other item.
    Pasting,
    /// The search field, the Vim INSERT marker and the mode indicator, in order.
    Row { search: Option<SearchPart>, vim_insert: bool, mode: ModeIndicator },
}

/// What the left side shows.
pub enum LeftSideView {
    ExitHint(Seq<char>),
    Pasting,
    Row { search: Option<SearchPartView>, vim_insert: bool, mode: ModeIndicatorView },
}

impl View for LeftSide {
    type V = LeftSideView;

    open spec fn view(&self) -> LeftSideView {
        match self {
            LeftSide::ExitHint(h) => LeftSideView::ExitHint(h@),
            LeftSide::Pasting => LeftSideView::Pasting,
            LeftSide::Row { search, vim_insert, mode } => LeftSideView::Row {
                search: match search {
                    Some(s) => Some(s@),
                    None => None,
                },
                vim_insert: *vim_insert,
                mode: mode@,
            },
        }
    }
}

/// "N teammate" or "N teammates".
pub open spec fn teammates_label_spec(count: nat) -> Seq<char> {
    decimal_spec(count) + " teammate"@ + (if count == 1 {
        ""@
    } else {
        "s"@
    })
}

/// The text of the teammates pill.
pub fn teammates_label(count: usize) -> (s: String)
    ensures
        s@ == teammates_label_spec(count as nat),
{
    let mut s = String::new();
    push_decimal(&mut s, count);
    s.append(" teammate");
    if count != 1 {
        s.append("s");
    }
    proof {
        assert(Seq::<char>::empty() + decimal_spec(count as nat) =~= decimal_spec(count as nat));
        if count == 1 {
            reveal_strlit("");
            assert(s@ =~= s@ + ""@);
        }
    }
    s
}

/// The mode indicator. Bash mode replaces everything else with its banner.
/// Otherwise the permission mode (when not the default), the tasks pill and
/// the teammates pill each count as a primary item; the permission mode's
/// cycle hint shows only while fewer than two compete. The trailing hint is
/// the tasks hint (tasks but no teammates), the teammates hint (teammates
/// selected, no tasks), or "? for shortcuts" when idle with no primary item.
/// No hint is added while loading.
pub open spec fn mode_indicator_spec(
    mode: PromptInputMode,
    show_hint: bool,
    is_loading: bool,
    permission_mode: PermissionMode,
    background_task_count: usize,
    background_tasks_label: Seq<char>,
    teammate_count: usize,
    selected: Option<FooterItem>,
) -> ModeIndicatorView {
    if mode == PromptInputMode::Bash {
        ModeIndicatorView::BashMode
    } else {
        let has_mode = permission_mode != PermissionMode::Default;
        let has_tasks = background_task_count > 0;
        let has_teams = teammate_count > 0;
        let primary = (if has_mode {
            1int
        } else {
            0
        }) + (if has_tasks {
            1int
        } else {
            0
        }) + (if has_teams {
            1int
        } else {
            0
        });
        let tasks_selected = selected == Some(FooterItem::Tasks);
        let teams_selected = selected == Some(FooterItem::Teams);
        ModeIndicatorView::Parts {
            permission: if has_mode {
                Some(PermissionModePart { mode: permission_mode, show_cycle_hint: primary < 2 })
            } else {
                None
            },
            tasks: if has_tasks {
                Some(PillView { label: background_tasks_label, selected: tasks_selected })
            } else {
                None
            },
            teams: if has_teams {
                Some(
                    PillView {
                        label: teammates_label_spec(teammate_count as nat),
                        selected: teams_selected,
                    },
                )
            } else {
                None
            },
            hint: if show_hint && has_tasks && !has_teams {
                if tasks_selected {
                    Some(ModeHint::EnterToViewTasks)
                } else {
                    Some(ModeHint::DownToManage)
                }
            } else if show_hint && has_teams && !has_tasks && teams_selected {
                Some(ModeHint::EnterToView)
            } else if show_hint && !is_loading && primary == 0 {
                Some(ModeHint::ForShortcuts)
            } else {
                None
            },
        }
    }
}

/// The mode indicator for the given inputs.
pub fn mode_indicator(
    mode: PromptInputMode,
    show_hint: bool,
    is_loading: bool,
    permission_mode: PermissionMode,
    background_task_count: usize,
    background_tasks_label: &String,
    teammate_count: usize,
    selected: Option<FooterItem>,
) -> (r: ModeIndicator)
    ensures
        r@ == mode_indicator_spec(
            mode,
            show_hint,
            is_loading,
            permission_mode,
            background_task_count,
            background_tasks_label@,
            teammate_count,
            selected,
        ),
{
    if mode == PromptInputMode::Bash {
        return ModeIndicator::BashMode;
    }
    let has_mode = permission_mode != PermissionMode::Default;
    let has_tasks = background_task_count > 0;
    let has_teams = teammate_count > 0;
    let primary: usize = (if has_mode {
        1usize
    } else {
        0
    }) + (if has_tasks {
        1usize
    } else {
        0
    }) + (if has_teams {
        1usize
    } else {
        0
    });
    let tasks_selected = match selected {
        Some(FooterItem::Tasks) => true,
        _ => false,
    };
    let teams_selected = match selected {
        Some(FooterItem::Teams) => true,
        _ => false,
    };
    let permission = if has_mode {
        Some(PermissionModePart { mode: permission_mode, show_cycle_hint: primary < 2 })
    } else {
        None
    };
    let tasks = if has_tasks {
        Some(Pill { label: background_tasks_label.clone(), selected: tasks_selected })
    } else {
        None
    };
    let teams = if has_teams {
        Some(Pill { label: teammates_label(teammate_count), selected: teams_selected })
    } else {
        None
    };
    let hint = if show_hint && has_tasks && !has_teams {
        if tasks_selected {
            Some(ModeHint::EnterToViewTasks)
        } else {
            Some(ModeHint::DownToManage)
        }
    } else if show_hint && has_teams && !has_tasks && teams_selected {
        Some(ModeHint::EnterToView)
    } else if show_hint && !is_loading && primary == 0 {
        Some(ModeHint::ForShortcuts)
    } else {
        None
    };
    ModeIndicator::Parts { permission, tasks, teams, hint }
}

/// The Vim marker shows only in INSERT mode and never during a history
/// search.
pub open spec fn show_vim_spec(vim_mode: Option<String>, is_searching: bool) -> bool {
    (vim_mode matches Some(v) && v@ == "INSERT"@) && !is_searching
}

/// The left side. The exit hint replaces everything; then the paste notice;
/// otherwise the row holds the search field while searching, the Vim INSERT
/// marker, and the mode indicator, whose hints are off while hints are
/// suppressed or the Vim marker shows.
pub open spec fn left_side_spec(
    props: PromptInputFooterLeftSideProps,
    selected: Option<FooterItem>,
    history_cursor_shown: bool,
) -> LeftSideView {
    if props.exit_hint is Some {
        LeftSideView::ExitHint(props.exit_hint->0@)
    } else if props.is_pasting {
        LeftSideView::Pasting
    } else {
        let show_vim = show_vim_spec(props.vim_mode, props.is_searching);
        LeftSideView::Row {
            search: if props.is_searching {
                Some(
                    SearchPartView {
                        failed_match: props.history_failed_match,
                        query: props.history_query@,
                        cursor_shown: history_cursor_shown,
                    },
                )
            } else {
                None
            },
            vim_insert: show_vim,
            mode: mode_indicator_spec(
                props.mode,
                !props.suppress_hint && !show_vim,
                props.is_loading,
                props.permission_mode,
                props.background_task_count,
                props.background_tasks_label@,
                props.teammate_count,
                selected,
            ),
        }
    }
}

/// The footer's left side for the given props, the selected footer item and
/// whether the search field may draw its cursor.
pub fn prompt_input_footer_left_side(
    props: &PromptInputFooterLeftSideProps,
    selected: Option<FooterItem>,
    history_cursor_shown: bool,
) -> (r: LeftSide)
    ensures
        r@ == left_side_spec(*props, selected, history_cursor_shown),
{
    if let Some(hint) = &props.exit_hint {
        return LeftSide::ExitHint(hint.clone());
    }
    if props.is_pasting {
        return LeftSide::Pasting;
    }
    let is_insert = match &props.vim_mode {
        Some(v) => *v == "INSERT".to_owned(),
        None => false,
    };
    let show_vim = is_insert && !props.is_searching;
    let show_hint = !props.suppress_hint && !show_vim;
    let search = if props.is_searching {
        Some(
            SearchPart {
                failed_match: props.history_failed_match,
                query: props.history_query.clone(),
                cursor_shown: history_cursor_shown,
            },
        )
    } else {
        None
    };
    let mode = mode_indicator(
        props.mode,
        show_hint,
        props.is_loading,
        props.permission_mode,
        props.background_task_count,
        &props.background_tasks_label,
        props.teammate_count,
        selected,
    );
    LeftSide::Row { search, vim_insert: show_vim, mode }
}


/// The text of each trailing hint.
pub open spec fn mode_hint_text_spec(hint: ModeHint) -> Seq<char> {
    match hint {
        ModeHint::EnterToViewTasks => "Enter to view tasks"@,
        ModeHint::DownToManage => "↓ to manage"@,
        ModeHint::EnterToView => "· Enter to view"@,
        ModeHint::ForShortcuts => "? for shortcuts"@,
    }
}

impl ModeHint {
    /// The text of this hint.
    pub fn text(&self) -> (s: &'static str)
        ensures
            s@ == mode_hint_text_spec(*self),
    {
        match self {
            ModeHint::EnterToViewTasks => "Enter to view tasks",
            ModeHint::DownToManage => "↓ to manage",
            ModeHint::EnterToView => "· Enter to view",
            ModeHint::ForShortcuts => "? for shortcuts",
        }
    }
}

/// The permission mode's label as drawn: its symbol and a space (when it has
/// a symbol), then its label.
pub open spec fn permission_label_text_spec(mode: PermissionMode) -> Seq<char> {
    let symbol = permission_mode_symbol_spec(mode);
    (if symbol.len() == 0 {
        Seq::<char>::empty()
    } else {
        symbol + " "@
    }) + permission_mode_label_spec(mode)
}

/// The permission mode part's text: the drawn label, then the cycle hint
/// when shown.
pub open spec fn permission_part_text_spec(part: PermissionModePart) -> Seq<char> {
    permission_label_text_spec(part.mode) + (if part.show_cycle_hint {
        CYCLE_HINT@
    } else {
        Seq::<char>::empty()
    })
}

/// The hint after a permission mode that shift+tab cycles.
pub const CYCLE_HINT: &'static str = " (shift+tab to cycle)";

impl PermissionModePart {
    /// The drawn label of this part's mode, without the cycle hint.
    pub fn label_text(&self) -> (s: String)
        ensures
            s@ == permission_label_text_spec(self.mode),
    {
        let symbol = permission_mode_symbol(self.mode);
        let mut s = String::new();
        if !symbol.is_empty() {
            s.append(symbol);
            s.append(" ");
        }
        s.append(permission_mode_display_label(self.mode));
        proof {
            let label = permission_mode_label_spec(self.mode);
            if symbol@.len() == 0 {
                assert(Seq::<char>::empty() + label =~= label);
            }
        }
        s
    }

    /// The text of this part.
    pub fn text(&self) -> (s: String)
        ensures
            s@ == permission_part_text_spec(*self),
    {
        let mut s = self.label_text();
        if self.show_cycle_hint {
            s.append(CYCLE_HINT);
        } else {
            assert(s@ =~= s@ + Seq::<char>::empty());
        }
        s
    }
}

/// The search field's text: its label, the query, and the cursor cell.
pub open spec fn search_text_spec(search: SearchPartView) -> Seq<char> {
    (if search.failed_match {
        "no matching prompt:"@
    } else {
        "search prompts:"@
    }) + " "@ + search.query + " "@
}

/// The texts of the mode indicator's parts, in order.
pub open spec fn mode_indicator_parts_spec(m: ModeIndicatorView) -> Seq<Seq<char>> {
    match m {
        ModeIndicatorView::BashMode => seq!["! for bash mode"@],
        ModeIndicatorView::Parts { permission, tasks, teams, hint } => {
            (if permission is Some {
                seq![permission_part_text_spec(permission->0)]
            } else {
                Seq::empty()
            }) + (if tasks is Some {
                seq![tasks->0.label]
            } else {
                Seq::empty()
            }) + (if teams is Some {
                seq![teams->0.label]
            } else {
                Seq::empty()
            }) + (if hint is Some {
                seq![mode_hint_text_spec(hint->0)]
            } else {
                Seq::empty()
            })
        },
    }
}

/// The texts of the left side's items, in order.
pub open spec fn left_side_parts_spec(l: LeftSideView) -> Seq<Seq<char>> {
    match l {
        LeftSideView::ExitHint(h) => seq![h],
        LeftSideView::Pasting => seq!["Pasting text…"@],
        LeftSideView::Row { search, vim_insert, mode } => (if search is Some {
            seq![search_text_spec(search->0)]
        } else {
            Seq::empty()
        }) + (if vim_insert {
            seq!["-- INSERT --"@]
        } else {
            Seq::empty()
        }) + mode_indicator_parts_spec(mode),
    }
}

impl SearchPart {
    /// The text of the search field.
    pub fn text(&self) -> (s: String)
        ensures
            s@ == search_text_spec(self@),
    {
        let mut s = String::new();
        if self.failed_match {
            s.append("no matching prompt:");
        } else {
            s.append("search prompts:");
        }
        s.append(" ");
        s.append(self.query.as_str());
        s.append(" ");
        proof {
            reveal_strlit("no matching prompt:");
            reveal_strlit("search prompts:");
        }
        s
    }
}

impl ModeIndicator {
    /// The texts of this indicator's parts, in order.
    pub fn parts(&self) -> (v: Vec<String>)
        ensures
            string_views(v@) == mode_indicator_parts_spec(self@),
    {
        let mut v: Vec<String> = Vec::new();
        match self {
            ModeIndicator::BashMode => {
                v.push("! for bash mode".to_owned());
            },
            ModeIndicator::Parts { permission, tasks, teams, hint } => {
                let ghost mut expected: Seq<Seq<char>> = Seq::empty();
                if let Some(p) = permission {
                    v.push(p.text());
                    proof {
                        expected = expected.push(permission_part_text_spec(*p));
                    }
                }
                assert(string_views(v@) =~= expected);
                if let Some(t) = tasks {
                    v.push(t.label.clone());
                    proof {
                        expected = expected.push(t.label@);
                    }
                }
                assert(string_views(v@) =~= expected);
                if let Some(t) = teams {
                    v.push(t.label.clone());
                    proof {
                        expected = expected.push(t.label@);
                    }
                }
                assert(string_views(v@) =~= expected);
                if let Some(h) = hint {
                    v.push(h.text().to_owned());
                    proof {
                        expected = expected.push(mode_hint_text_spec(*h));
                    }
                }
                assert(string_views(v@) =~= expected);
                assert(expected =~= mode_indicator_parts_spec(self@));
            },
        }
        assert(string_views(v@) =~= mode_indicator_parts_spec(self@));
        v
    }
}

impl LeftSide {
    /// The texts of the left side's items, in order.
    pub fn parts(&self) -> (v: Vec<String>)
        ensures
            string_views(v@) == left_side_parts_spec(self@),
    {
        match self {
            LeftSide::ExitHint(h) => {
                let v = vec![h.clone()];
                assert(string_views(v@) =~= left_side_parts_spec(self@));
                v
            },
            LeftSide::Pasting => {
                let v = vec!["Pasting text…".to_owned()];
                assert(string_views(v@) =~= left_side_parts_spec(self@));
                v
            },
            LeftSide::Row { search, vim_insert, mode } => {
                let mut v: Vec<String> = Vec::new();
                let ghost mut expected: Seq<Seq<char>> = Seq::empty();
                if let Some(s) = search {
                    v.push(s.text());
                    proof {
                        expected = expected.push(search_text_spec(s@));
                    }
                }
                assert(string_views(v@) =~= expected);
                if *vim_insert {
                    v.push("-- INSERT --".to_owned());
                    proof {
                        expected = expected.push("-- INSERT --"@);
                    }
                }
                assert(string_views(v@) =~= expected);
                let rest = mode.parts();
                let ghost before = v@;
                let mut i: usize = 0;
                while i < rest.len()
                    invariant
                        i <= rest@.len(),
                        v@ == before + rest@.take(i as int),
                    decreases rest@.len() - i,
                {
                    v.push(rest[i].clone());
                    assert(before + rest@.take(i + 1) =~= (before + rest@.take(i as int)).push(
                        rest@[i as int],
                    ));
                    i = i + 1;
                }
                assert(rest@.take(rest@.len() as int) =~= rest@);
                assert(string_views(v@) =~= expected + string_views(rest@));
                v
            },
        }
    }

    /// The left side as one line of text, its items separated by single
    /// spaces.
    pub fn plain_text(&self) -> (s: String)
        ensures
            s@ == join_with_spaces(left_side_parts_spec(self@)),
    {
        let parts = self.parts();
        join_parts(&parts)
    }
}


/// The exit hint replaces every other item of the left side, and the paste
/// notice replaces everything but the exit hint.
pub proof fn lemma_notices_replace_everything(
    props: PromptInputFooterLeftSideProps,
    selected: Option<FooterItem>,
    history_cursor_shown: bool,
)
    ensures
        props.exit_hint matches Some(h) ==> left_side_parts_spec(
            left_side_spec(props, selected, history_cursor_shown),
        ) == seq![h@],
        props.exit_hint is None && props.is_pasting ==> left_side_parts_spec(
            left_side_spec(props, selected, history_cursor_shown),
        ) == seq!["Pasting text…"@],
{
}

/// The Vim marker shows exactly in INSERT mode outside a history search, and
/// while it shows the mode indicator adds no hint.
pub proof fn lemma_vim_marker(
    props: PromptInputFooterLeftSideProps,
    selected: Option<FooterItem>,
    history_cursor_shown: bool,
)
    requires
        props.exit_hint is None,
        !props.is_pasting,
    ensures
        left_side_spec(props, selected, history_cursor_shown) matches LeftSideView::Row {
            vim_insert,
            mode,
            ..
        } && vim_insert == show_vim_spec(props.vim_mode, props.is_searching) && (vim_insert
            ==> !(mode matches ModeIndicatorView::Parts { hint: Some(_), .. })),
{
}

/// Bash mode owns the mode indicator: its banner replaces the permission
/// mode, the pills and the hints.
pub proof fn lemma_bash_mode_owns_indicator(
    show_hint: bool,
    is_loading: bool,
    permission_mode: PermissionMode,
    background_task_count: usize,
    background_tasks_label: Seq<char>,
    teammate_count: usize,
    selected: Option<FooterItem>,
)
    ensures
        mode_indicator_spec(
            PromptInputMode::Bash,
            show_hint,
            is_loading,
            permission_mode,
            background_task_count,
            background_tasks_label,
            teammate_count,
            selected,
        ) == ModeIndicatorView::BashMode,
        mode_indicator_parts_spec(ModeIndicatorView::BashMode) == seq!["! for bash mode"@],
{
}

/// Outside bash mode, the permission mode's cycle hint shows exactly when
/// the mode is not the default and fewer than two of the permission mode,
/// the tasks pill and the teammates pill compete; "? for shortcuts" shows
/// only when hints are on, nothing is loading and none of them is present.
pub proof fn lemma_mode_indicator_hints(
    show_hint: bool,
    is_loading: bool,
    permission_mode: PermissionMode,
    background_task_count: usize,
    background_tasks_label: Seq<char>,
    teammate_count: usize,
    selected: Option<FooterItem>,
)
    ensures
        ({
            let m = mode_indicator_spec(
                PromptInputMode::Prompt,
                show_hint,
                is_loading,
                permission_mode,
                background_task_count,
                background_tasks_label,
                teammate_count,
                selected,
            );
            let primary = (if permission_mode != PermissionMode::Default {
                1int
            } else {
                0
            }) + (if background_task_count > 0 {
                1int
            } else {
                0
            }) + (if teammate_count > 0 {
                1int
            } else {
                0
            });
            &&& m matches ModeIndicatorView::Parts { permission, hint, tasks, .. }
            &&& (permission is Some <==> permission_mode != PermissionMode::Default)
            &&& (permission matches Some(p) ==> p.mode == permission_mode)
            &&& (permission matches Some(p) && p.show_cycle_hint) <==> (permission_mode
                != PermissionMode::Default && primary < 2)
            &&& hint == Some(ModeHint::ForShortcuts) ==> show_hint && !is_loading && primary == 0
            &&& tasks matches Some(t) ==> t.label == background_tasks_label
        }),
{
}


/// The colors of a pill: text and background. A selected pill is drawn in
/// inverse text on the suggestion color; otherwise in the inactive color on
/// no background.
pub open spec fn pill_colors_spec(selected: bool) -> (ThemeColor, Option<ThemeColor>) {
    if selected {
        (ThemeColor::InverseText, Some(ThemeColor::Suggestion))
    } else {
        (ThemeColor::Inactive, None)
    }
}

impl Pill {
    /// This pill's text and background colors.
    pub fn colors(&self) -> (r: (ThemeColor, Option<ThemeColor>))
        ensures
            r == pill_colors_spec(self.selected),
    {
        if self.selected {
            (ThemeColor::InverseText, Some(ThemeColor::Suggestion))
        } else {
            (ThemeColor::Inactive, None)
        }
    }
}

impl ModeIndicator {
    /// The color of the bash banner, which is drawn in the bash border color;
    /// `None` when the indicator is not the banner.
    pub fn banner_color(&self) -> (c: Option<ThemeColor>)
        ensures
            c == (match self@ {
                ModeIndicatorView::BashMode => Some(ThemeColor::BashBorder),
                ModeIndicatorView::Parts { .. } => None::<ThemeColor>,
            }),
    {
        match self {
            ModeIndicator::BashMode => Some(ThemeColor::BashBorder),
            ModeIndicator::Parts { .. } => None,
        }
    }
}

impl ModeHint {
    /// Every trailing hint is drawn in the inactive color.
    pub fn color(&self) -> (c: ThemeColor)
        ensures
            c == ThemeColor::Inactive,
    {
        ThemeColor::Inactive
    }
}

/// The permission mode's cycle hint is drawn in the inactive color.
pub fn cycle_hint_color() -> (c: ThemeColor)
    ensures
        c == ThemeColor::Inactive,
{
    ThemeColor::Inactive
}

/// The left side's own texts (the exit hint, the paste notice, the search
/// label and query, and the Vim marker) are drawn in the inactive color.
pub fn left_side_text_color() -> (c: ThemeColor)
    ensures
        c == ThemeColor::Inactive,
{
    ThemeColor::Inactive
}


/// The trailing hint outside bash mode: with hints off there is none; with a
/// tasks pill and no teammates it is "Enter to view tasks" when the tasks pill
/// is selected and "↓ to manage" otherwise; with teammates and no tasks it is
/// "· Enter to view" when the teammates pill is selected; with neither and
/// nothing loading it is "? for shortcuts" when the mode is the default. The
/// tasks pill shows its label, the teammates pill counts them, and each is
/// marked selected exactly when it is the selected footer item.
pub proof fn lemma_trailing_hint(
    show_hint: bool,
    is_loading: bool,
    permission_mode: PermissionMode,
    background_task_count: usize,
    background_tasks_label: Seq<char>,
    teammate_count: usize,
    selected: Option<FooterItem>,
)
    ensures
        ({
            let m = mode_indicator_spec(
                PromptInputMode::Prompt,
                show_hint,
                is_loading,
                permission_mode,
                background_task_count,
                background_tasks_label,
                teammate_count,
                selected,
            );
            &&& m matches ModeIndicatorView::Parts { hint, tasks, teams, .. }
            &&& !show_hint ==> hint is None
            &&& show_hint && background_task_count > 0 && teammate_count == 0 ==> hint == Some(
                if selected == Some(FooterItem::Tasks) {
                    ModeHint::EnterToViewTasks
                } else {
                    ModeHint::DownToManage
                },
            )
            &&& show_hint && teammate_count > 0 && background_task_count == 0 ==> (hint == if selected
                == Some(FooterItem::Teams) {
                Some(ModeHint::EnterToView)
            } else {
                None
            })
            &&& background_task_count > 0 && teammate_count > 0 ==> hint is None
            &&& show_hint && background_task_count == 0 && teammate_count == 0 ==> (hint == if !is_loading
                && permission_mode == PermissionMode::Default {
                Some(ModeHint::ForShortcuts)
            } else {
                None
            })
            &&& (tasks is Some <==> background_task_count > 0)
            &&& (tasks matches Some(t) ==> t.label == background_tasks_label && t.selected == (selected
                == Some(FooterItem::Tasks)))
            &&& (teams is Some <==> teammate_count > 0)
            &&& (teams matches Some(t) ==> t.label == decimal_spec(teammate_count as nat) + " teammate"@
                + (if teammate_count == 1 {
                ""@
            } else {
                "s"@
            }) && t.selected == (selected == Some(FooterItem::Teams)))
        }),
{
}

/// Outside bash mode and notices, a non-default permission mode is always
/// drawn, first in the row, whatever pills compete with it; only its cycle
/// hint depends on them.
pub proof fn lemma_permission_mode_always_drawn(
    show_hint: bool,
    is_loading: bool,
    permission_mode: PermissionMode,
    background_task_count: usize,
    background_tasks_label: Seq<char>,
    teammate_count: usize,
    selected: Option<FooterItem>,
)
    requires
        permission_mode != PermissionMode::Default,
    ensures
        ({
            let m = mode_indicator_spec(
                PromptInputMode::Prompt,
                show_hint,
                is_loading,
                permission_mode,
                background_task_count,
                background_tasks_label,
                teammate_count,
                selected,
            );
            let parts = mode_indicator_parts_spec(m);
            &&& parts.len() > 0
            &&& parts[0] == permission_label_text_spec(permission_mode) + (if background_task_count
                == 0 && teammate_count == 0 {
                CYCLE_HINT@
            } else {
                Seq::<char>::empty()
            })
        }),
{
    let m = mode_indicator_spec(
        PromptInputMode::Prompt,
        show_hint,
        is_loading,
        permission_mode,
        background_task_count,
        background_tasks_label,
        teammate_count,
        selected,
    );
    if let ModeIndicatorView::Parts { permission, tasks, teams, hint } = m {
        let first = seq![permission_part_text_spec(permission->0)];
        let rest = (if tasks is Some {
            seq![tasks->0.label]
        } else {
            Seq::empty()
        }) + (if teams is Some {
            seq![teams->0.label]
        } else {
            Seq::empty()
        }) + (if hint is Some {
            seq![mode_hint_text_spec(hint->0)]
        } else {
            Seq::empty()
        });
        assert(mode_indicator_parts_spec(m) =~= first + rest);
        assert((first + rest)[0] == first[0]);
    }
}

} // verus!
