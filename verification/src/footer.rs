//! The prompt footer: which rows it owns (an optional status line, then one
//! body row shared by the left-side hints and the right-side notifications and
//! status pills), how many terminal rows that budget takes, and the Remote
//! Control bridge pill.
use crate::bridge::FooterItem;
use crate::left_side::{
    left_side_parts_spec, left_side_spec, mode_indicator_parts_spec, LeftSide, LeftSideView,
    ModeIndicatorView, PromptInputFooterLeftSideProps,
};
use crate::permission::{is_default_mode, PermissionMode, PromptInputMode};
use crate::text::{join_parts, join_with_spaces, string_views};
use crate::theme::ThemeColor;
use vstd::prelude::*;

verus! {

/// The left side draws a body row for a footer pill: the bash banner, the Vim
/// indicator, the tasks pill or the teammates pill. The height budget and the
/// render gate share this predicate.
pub open spec fn footer_has_items_spec(
    mode: PromptInputMode,
    vim_mode_active: bool,
    background_task_count: usize,
    teammate_count: usize,
) -> bool {
    mode == PromptInputMode::Bash || vim_mode_active || background_task_count > 0 || teammate_count
        > 0
}

/// Whether the left side draws a body row for a footer pill.
pub fn footer_has_items(
    mode: PromptInputMode,
    vim_mode_active: bool,
    background_task_count: usize,
    teammate_count: usize,
) -> (b: bool)
    ensures
        b == footer_has_items_spec(mode, vim_mode_active, background_task_count, teammate_count),
{
    mode == PromptInputMode::Bash || vim_mode_active || background_task_count > 0 || teammate_count
        > 0
}

/// The footer body row is drawn when anything would sit in it. Loading alone
/// adds nothing to it.
pub open spec fn footer_row_should_render_spec(
    exit_hint_visible: bool,
    is_searching: bool,
    suppress_hint: bool,
    permission_mode: PermissionMode,
    notification_row_count: usize,
    status_indicator_count: usize,
    has_footer_items: bool,
) -> bool {
    ||| exit_hint_visible
    ||| is_searching
    ||| notification_row_count > 0
    ||| status_indicator_count > 0
    ||| permission_mode != PermissionMode::Default
    ||| !suppress_hint
    ||| has_footer_items
}

/// Whether the footer body row is drawn.
pub fn footer_row_should_render(
    exit_hint_visible: bool,
    is_searching: bool,
    suppress_hint: bool,
    _is_loading: bool,
    permission_mode: PermissionMode,
    notification_row_count: usize,
    status_indicator_count: usize,
    has_footer_items: bool,
) -> (b: bool)
    ensures
        b == footer_row_should_render_spec(
            exit_hint_visible,
            is_searching,
            suppress_hint,
            permission_mode,
            notification_row_count,
            status_indicator_count,
            has_footer_items,
        ),
{
    exit_hint_visible || is_searching || notification_row_count > 0 || status_indicator_count > 0
        || !is_default_mode(permission_mode) || !suppress_hint || has_footer_items
}

/// Rows of the footer body: none when it is not drawn, else one per
/// notification row and status pill stacked on the right, and at least one.
pub open spec fn footer_body_height_spec(
    exit_hint_visible: bool,
    is_searching: bool,
    suppress_hint: bool,
    permission_mode: PermissionMode,
    notification_row_count: usize,
    status_indicator_count: usize,
    has_footer_items: bool,
) -> int {
    if footer_row_should_render_spec(
        exit_hint_visible,
        is_searching,
        suppress_hint,
        permission_mode,
        notification_row_count,
        status_indicator_count,
        has_footer_items,
    ) {
        if notification_row_count + status_indicator_count >= 1 {
            notification_row_count + status_indicator_count
        } else {
            1
        }
    } else {
        0
    }
}

/// Rows of the footer body.
pub fn footer_body_height_for(
    exit_hint_visible: bool,
    is_searching: bool,
    suppress_hint: bool,
    is_loading: bool,
    permission_mode: PermissionMode,
    notification_row_count: usize,
    status_indicator_count: usize,
    has_footer_items: bool,
) -> (h: usize)
    requires
        notification_row_count + status_indicator_count <= usize::MAX,
    ensures
        h == footer_body_height_spec(
            exit_hint_visible,
            is_searching,
            suppress_hint,
            permission_mode,
            notification_row_count,
            status_indicator_count,
            has_footer_items,
        ),
{
    if footer_row_should_render(
        exit_hint_visible,
        is_searching,
        suppress_hint,
        is_loading,
        permission_mode,
        notification_row_count,
        status_indicator_count,
        has_footer_items,
    ) {
        let rows = notification_row_count + status_indicator_count;
        if rows >= 1 {
            rows
        } else {
            1
        }
    } else {
        0
    }
}

/// A configured status line owns its row whenever it is mounted, and it is
/// mounted unless the exit hint takes the footer over; the row is reserved
/// even while the status text is still loading.
pub open spec fn status_line_should_render_spec(
    status_line_configured: bool,
    exit_hint_visible: bool,
) -> bool {
    status_line_configured && !exit_hint_visible
}

/// Whether the status line is mounted above the footer body.
pub fn status_line_should_render(status_line_configured: bool, exit_hint_visible: bool) -> (b:
    bool)
    ensures
        b == status_line_should_render_spec(status_line_configured, exit_hint_visible),
{
    status_line_configured && !exit_hint_visible
}

/// Rows the whole footer takes: the status line's row when it is mounted,
/// plus the body rows.
pub open spec fn footer_height_spec(
    status_line_configured: bool,
    exit_hint_visible: bool,
    is_searching: bool,
    suppress_hint: bool,
    permission_mode: PermissionMode,
    notification_row_count: usize,
    status_indicator_count: usize,
    has_footer_items: bool,
) -> int {
    (if status_line_should_render_spec(status_line_configured, exit_hint_visible) {
        1int
    } else {
        0int
    }) + footer_body_height_spec(
        exit_hint_visible,
        is_searching,
        suppress_hint,
        permission_mode,
        notification_row_count,
        status_indicator_count,
        has_footer_items,
    )
}

/// The footer's row count fits in `usize`: the status row plus the stacked right side.
pub open spec fn footer_rows_fit(
    status_line_configured: bool,
    exit_hint_visible: bool,
    notification_row_count: usize,
    status_indicator_count: usize,
) -> bool {
    &&& notification_row_count + status_indicator_count <= usize::MAX
    &&& status_line_should_render_spec(status_line_configured, exit_hint_visible)
        ==> notification_row_count + status_indicator_count < usize::MAX
}

/// Rows the whole footer takes. It tracks the same condition as the status
/// line's mount, not its text, so a status line that is still loading keeps
/// its row.
pub fn footer_height_for(
    status_line_configured: bool,
    exit_hint_visible: bool,
    is_searching: bool,
    suppress_hint: bool,
    is_loading: bool,
    permission_mode: PermissionMode,
    notification_row_count: usize,
    status_indicator_count: usize,
    has_footer_items: bool,
) -> (h: usize)
    requires
        footer_rows_fit(
            status_line_configured,
            exit_hint_visible,
            notification_row_count,
            status_indicator_count,
        ),
    ensures
        h == footer_height_spec(
            status_line_configured,
            exit_hint_visible,
            is_searching,
            suppress_hint,
            permission_mode,
            notification_row_count,
            status_indicator_count,
            has_footer_items,
        ),
{
    let status_row: usize = if status_line_should_render(status_line_configured, exit_hint_visible) {
        1
    } else {
        0
    };
    status_row + footer_body_height_for(
        exit_hint_visible,
        is_searching,
        suppress_hint,
        is_loading,
        permission_mode,
        notification_row_count,
        status_indicator_count,
        has_footer_items,
    )
}

/// A footer that has a pill item always budgets a body row for it, on top of
/// the status line's row when that is mounted.
pub proof fn lemma_footer_items_always_budget_a_row(
    status_line_configured: bool,
    exit_hint_visible: bool,
    is_searching: bool,
    suppress_hint: bool,
    permission_mode: PermissionMode,
    notification_row_count: usize,
    status_indicator_count: usize,
)
    ensures
        footer_height_spec(
            status_line_configured,
            exit_hint_visible,
            is_searching,
            suppress_hint,
            permission_mode,
            notification_row_count,
            status_indicator_count,
            true,
        ) >= 1 + (if status_line_should_render_spec(status_line_configured, exit_hint_visible) {
            1int
        } else {
            0int
        }),
{
}

/// The footer takes no row at all exactly when no status line is mounted and
/// nothing would sit in the body row; otherwise the body takes at least one
/// row whenever it is drawn, and exactly as many as the right side stacks
/// when that is more.
pub proof fn lemma_footer_height_shape(
    status_line_configured: bool,
    exit_hint_visible: bool,
    is_searching: bool,
    suppress_hint: bool,
    permission_mode: PermissionMode,
    notification_row_count: usize,
    status_indicator_count: usize,
    has_footer_items: bool,
)
    ensures
        (footer_height_spec(
            status_line_configured,
            exit_hint_visible,
            is_searching,
            suppress_hint,
            permission_mode,
            notification_row_count,
            status_indicator_count,
            has_footer_items,
        ) == 0) <==> (!status_line_should_render_spec(status_line_configured, exit_hint_visible)
            && !footer_row_should_render_spec(
            exit_hint_visible,
            is_searching,
            suppress_hint,
            permission_mode,
            notification_row_count,
            status_indicator_count,
            has_footer_items,
        )),
        footer_body_height_spec(
            exit_hint_visible,
            is_searching,
            suppress_hint,
            permission_mode,
            notification_row_count,
            status_indicator_count,
            has_footer_items,
        ) >= notification_row_count + status_indicator_count,
{
}


/// What the footer is drawn from, besides the application state.
#[derive(Clone, Debug, Default)]
pub struct FooterProps {
    pub debug: bool,
    pub exit_hint: Option<String>,
    pub suppress_hint: bool,
    pub is_searching: bool,
    pub history_failed_match: bool,
    pub is_loading: bool,
    pub permission_mode: PermissionMode,
    pub status_indicator_count: usize,
    pub background_task_count: usize,
    pub background_tasks_label: String,
    pub teammate_count: usize,
    pub vim_mode: Option<String>,
    pub mode: PromptInputMode,
    pub is_pasting: bool,
}

/// How the footer lays itself out.
#[derive(Clone, Copy, Debug, PartialEq, Eq, Structural)]
pub struct FooterLayout {
    /// Hints are suppressed by the props, by a configured status line, or by
    /// an active history search.
    pub suppress_hint: bool,
    pub has_status_line: bool,
    /// Rows of the body row; zero when it is not drawn.
    pub body_height: usize,
    pub has_footer_row: bool,
    /// The right side stacks the notification rows.
    pub show_notifications: bool,
    /// The right side stacks the bridge pill.
    pub show_status_indicators: bool,
}

/// The hint suppression the footer hands to its left side.
pub open spec fn effective_suppress_hint(props: FooterProps, status_line_configured: bool) -> bool {
    props.suppress_hint || status_line_configured || props.is_searching
}

/// The footer's layout: the status line when it is mounted, then the body row
/// whenever anything would sit in it, sized by `footer_body_height_spec`.
pub open spec fn footer_layout_spec(
    props: FooterProps,
    status_line_configured: bool,
    notification_row_count: usize,
) -> FooterLayout {
    let suppress = effective_suppress_hint(props, status_line_configured);
    let exit_visible = props.exit_hint is Some;
    let body = footer_body_height_spec(
        exit_visible,
        props.is_searching,
        suppress,
        props.permission_mode,
        notification_row_count,
        props.status_indicator_count,
        footer_has_items_spec(
            props.mode,
            props.vim_mode is Some,
            props.background_task_count,
            props.teammate_count,
        ),
    );
    FooterLayout {
        suppress_hint: suppress,
        has_status_line: status_line_should_render_spec(status_line_configured, exit_visible),
        body_height: body as usize,
        has_footer_row: body > 0,
        show_notifications: notification_row_count > 0,
        show_status_indicators: props.status_indicator_count > 0,
    }
}

/// The footer's layout for the given props, whether a status line is
/// configured, and the number of notification rows.
pub fn footer_layout(
    props: &FooterProps,
    status_line_configured: bool,
    notification_row_count: usize,
) -> (r: FooterLayout)
    requires
        notification_row_count + props.status_indicator_count <= usize::MAX,
    ensures
        r == footer_layout_spec(*props, status_line_configured, notification_row_count),
{
    let suppress_hint = props.suppress_hint || status_line_configured || props.is_searching;
    let exit_hint_visible = props.exit_hint.is_some();
    let has_status_line = status_line_should_render(status_line_configured, exit_hint_visible);
    let has_footer_items = footer_has_items(
        props.mode,
        props.vim_mode.is_some(),
        props.background_task_count,
        props.teammate_count,
    );
    let body_height = footer_body_height_for(
        exit_hint_visible,
        props.is_searching,
        suppress_hint,
        props.is_loading,
        props.permission_mode,
        notification_row_count,
        props.status_indicator_count,
        has_footer_items,
    );
    FooterLayout {
        suppress_hint,
        has_status_line,
        body_height,
        has_footer_row: body_height > 0,
        show_notifications: notification_row_count > 0,
        show_status_indicators: props.status_indicator_count > 0,
    }
}

impl FooterLayout {
    /// The footer draws nothing: no status line and no body row.
    pub fn is_empty(&self) -> (b: bool)
        ensures
            b == (!self.has_status_line && !self.has_footer_row),
    {
        !self.has_status_line && !self.has_footer_row
    }

    /// The body row has a right side: notification rows or status pills.
    pub fn has_right_side(&self) -> (b: bool)
        ensures
            b == (self.show_notifications || self.show_status_indicators),
    {
        self.show_notifications || self.show_status_indicators
    }
}

impl FooterProps {
    /// The props the footer hands to its left side.
    pub fn left_side_props(&self, suppress_hint: bool, history_query: String) -> (r:
        PromptInputFooterLeftSideProps)
        ensures
            r == footer_left_side_props(*self, suppress_hint, history_query),
    {
        PromptInputFooterLeftSideProps {
            exit_hint: self.exit_hint.clone(),
            is_pasting: self.is_pasting,
            vim_mode: self.vim_mode.clone(),
            mode: self.mode,
            suppress_hint,
            is_searching: self.is_searching,
            history_query,
            history_failed_match: self.history_failed_match,
            is_loading: self.is_loading,
            permission_mode: self.permission_mode,
            background_task_count: self.background_task_count,
            background_tasks_label: self.background_tasks_label.clone(),
            teammate_count: self.teammate_count,
        }
    }
}

/// The rows the footer lays out are exactly the rows its height budget
/// reserves, computed with the hint suppression the footer itself applies;
/// in particular the footer draws nothing exactly when the budget is zero.
pub proof fn lemma_footer_layout_matches_budget(
    props: FooterProps,
    status_line_configured: bool,
    notification_row_count: usize,
)
    requires
        notification_row_count + props.status_indicator_count <= usize::MAX,
    ensures
        ({
            let layout = footer_layout_spec(props, status_line_configured, notification_row_count);
            let budget = footer_height_spec(
                status_line_configured,
                props.exit_hint is Some,
                props.is_searching,
                effective_suppress_hint(props, status_line_configured),
                props.permission_mode,
                notification_row_count,
                props.status_indicator_count,
                footer_has_items_spec(
                    props.mode,
                    props.vim_mode is Some,
                    props.background_task_count,
                    props.teammate_count,
                ),
            );
            &&& (if layout.has_status_line {
                1int
            } else {
                0int
            }) + layout.body_height == budget
            &&& (!layout.has_status_line && !layout.has_footer_row) <==> budget == 0
        }),
{
}


/// The left side's props as the footer hands them over.
pub open spec fn footer_left_side_props(
    props: FooterProps,
    suppress_hint: bool,
    history_query: String,
) -> PromptInputFooterLeftSideProps {
    PromptInputFooterLeftSideProps {
        exit_hint: props.exit_hint,
        is_pasting: props.is_pasting,
        vim_mode: props.vim_mode,
        mode: props.mode,
        suppress_hint,
        is_searching: props.is_searching,
        history_query,
        history_failed_match: props.history_failed_match,
        is_loading: props.is_loading,
        permission_mode: props.permission_mode,
        background_task_count: props.background_task_count,
        background_tasks_label: props.background_tasks_label,
        teammate_count: props.teammate_count,
    }
}

/// Whatever the footer's left side shows has a body row budgeted for it: the
/// row the left side draws into is never dropped from the footer's height.
/// The paste notice is the exception: it does not by itself open the body
/// row.
pub proof fn lemma_left_side_is_budgeted(
    props: FooterProps,
    status_line_configured: bool,
    notification_row_count: usize,
    history_query: String,
    selected: Option<FooterItem>,
    history_cursor_shown: bool,
)
    requires
        notification_row_count + props.status_indicator_count <= usize::MAX,
        !props.is_pasting,
    ensures
        ({
            let layout = footer_layout_spec(props, status_line_configured, notification_row_count);
            let left = left_side_spec(
                footer_left_side_props(props, layout.suppress_hint, history_query),
                selected,
                history_cursor_shown,
            );
            left_side_parts_spec(left).len() > 0 ==> layout.has_footer_row && layout.body_height >= 1
        }),
{
    let layout = footer_layout_spec(props, status_line_configured, notification_row_count);
    let left = left_side_spec(
        footer_left_side_props(props, layout.suppress_hint, history_query),
        selected,
        history_cursor_shown,
    );
    if left_side_parts_spec(left).len() > 0 && !layout.has_footer_row {
        assert(props.exit_hint is None);
        assert(!props.is_searching);
        assert(layout.suppress_hint);
        assert(props.permission_mode == PermissionMode::Default);
        assert(props.background_task_count == 0 && props.teammate_count == 0);
        assert(props.mode != PromptInputMode::Bash);
        assert(props.vim_mode is None);
        if let LeftSideView::Row { search, vim_insert, mode } = left {
            assert(search is None);
            assert(!vim_insert);
            if let ModeIndicatorView::Parts { permission, tasks, teams, hint } = mode {
                assert(permission is None && tasks is None && teams is None && hint is None);
                assert(mode_indicator_parts_spec(mode) =~= Seq::<Seq<char>>::empty());
            }
            assert(left_side_parts_spec(left) =~= Seq::<Seq<char>>::empty());
        }
    }
}


/// Status line text that sets no color of its own is drawn in the inactive
/// color, not dimmed.
pub fn status_line_default_color() -> (c: ThemeColor)
    ensures
        c == ThemeColor::Inactive,
{
    ThemeColor::Inactive
}

/// The footer as text, one line per drawn row: the status line's text, then
/// the body row holding the left side's items followed by the right side's
/// rows (when the layout has a right side), separated by single spaces.
/// Empty when the footer draws nothing.
pub open spec fn footer_text_spec(
    layout: FooterLayout,
    status_line_text: Seq<char>,
    left_parts: Seq<Seq<char>>,
    right_rows: Seq<Seq<char>>,
) -> Seq<char> {
    let has_right = layout.show_notifications || layout.show_status_indicators;
    let body = join_with_spaces(
        left_parts + (if has_right {
            right_rows
        } else {
            Seq::empty()
        }),
    );
    if layout.has_status_line && layout.has_footer_row {
        status_line_text + "\n"@ + body
    } else if layout.has_status_line {
        status_line_text
    } else if layout.has_footer_row {
        body
    } else {
        Seq::empty()
    }
}

/// The footer as text, given the status line's shown text, the left side and
/// the texts of the right side's rows.
pub fn footer_text(
    layout: &FooterLayout,
    status_line_text: &str,
    left: &LeftSide,
    right_rows: &Vec<String>,
) -> (s: String)
    ensures
        s@ == footer_text_spec(
            *layout,
            status_line_text@,
            left_side_parts_spec(left@),
            string_views(right_rows@),
        ),
{
    let mut parts = left.parts();
    let ghost left_views = string_views(parts@);
    if layout.has_right_side() {
        let ghost before = parts@;
        let mut i: usize = 0;
        while i < right_rows.len()
            invariant
                i <= right_rows@.len(),
                parts@ == before + right_rows@.take(i as int),
            decreases right_rows@.len() - i,
        {
            parts.push(right_rows[i].clone());
            assert(before + right_rows@.take(i + 1) =~= (before + right_rows@.take(i as int)).push(
                right_rows@[i as int],
            ));
            i = i + 1;
        }
        assert(right_rows@.take(right_rows@.len() as int) =~= right_rows@);
        assert(string_views(parts@) =~= left_views + string_views(right_rows@));
    } else {
        assert(string_views(parts@) =~= left_views + Seq::<Seq<char>>::empty());
    }
    let body = join_parts(&parts);
    if layout.has_status_line && layout.has_footer_row {
        let mut s = status_line_text.to_owned();
        s.append("\n");
        s.append(body.as_str());
        s
    } else if layout.has_status_line {
        status_line_text.to_owned()
    } else if layout.has_footer_row {
        body
    } else {
        String::new()
    }
}


/// The footer suppresses its hints when its props say so, when a status line
/// is configured, and during a history search, and only then; the left side
/// gets that suppression.
pub proof fn lemma_footer_suppresses_hints(
    props: FooterProps,
    status_line_configured: bool,
    notification_row_count: usize,
    history_query: String,
)
    ensures
        footer_layout_spec(props, status_line_configured, notification_row_count).suppress_hint
            == (props.suppress_hint || status_line_configured || props.is_searching),
        props.is_searching ==> footer_layout_spec(
            props,
            status_line_configured,
            notification_row_count,
        ).suppress_hint,
        footer_left_side_props(
            props,
            footer_layout_spec(props, status_line_configured, notification_row_count).suppress_hint,
            history_query,
        ).suppress_hint == (props.suppress_hint || status_line_configured || props.is_searching),
{
}

/// The footer's text holds the status line's text as its first line when
/// the status line is mounted, and the body row holds the left side's items
/// followed by every right-side row whenever the layout has a right side
/// (notification rows or status pills), or the left side's items alone
/// otherwise.
pub proof fn lemma_footer_text_rows(
    layout: FooterLayout,
    status_line_text: Seq<char>,
    left_parts: Seq<Seq<char>>,
    right_rows: Seq<Seq<char>>,
)
    ensures
        ({
            let text = footer_text_spec(layout, status_line_text, left_parts, right_rows);
            let body = if layout.show_notifications || layout.show_status_indicators {
                join_with_spaces(left_parts + right_rows)
            } else {
                join_with_spaces(left_parts)
            };
            &&& layout.has_footer_row && !layout.has_status_line ==> text == body
            &&& layout.has_footer_row && layout.has_status_line ==> text == status_line_text
                + "\n"@ + body
            &&& !layout.has_footer_row && layout.has_status_line ==> text == status_line_text
            &&& !layout.has_footer_row && !layout.has_status_line ==> text.len() == 0
        }),
{
    assert(left_parts + Seq::<Seq<char>>::empty() =~= left_parts);
}

/// A footer whose layout stacks status pills draws each given right-side row
/// in its body, after the left side's items, whether or not notification rows
/// are present.
pub proof fn lemma_status_pills_reach_the_text(
    props: FooterProps,
    notification_row_count: usize,
    left_parts: Seq<Seq<char>>,
    right_rows: Seq<Seq<char>>,
)
    requires
        notification_row_count + props.status_indicator_count <= usize::MAX,
        props.status_indicator_count > 0,
    ensures
        ({
            let layout = footer_layout_spec(props, false, notification_row_count);
            &&& layout.has_footer_row
            &&& !layout.has_status_line
            &&& footer_text_spec(layout, Seq::empty(), left_parts, right_rows)
                == join_with_spaces(left_parts + right_rows)
        }),
{
    let layout = footer_layout_spec(props, false, notification_row_count);
    lemma_footer_text_rows(layout, Seq::empty(), left_parts, right_rows);
}

} // verus!
