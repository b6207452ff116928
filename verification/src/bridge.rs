//! The Remote Control bridge pill of the footer: when it shows, what it says,
//! and the right-side row it takes.
use crate::notifications::{
    indicator_from, IndicatorView, NotificationColor, NotificationSegment, PromptFooterIndicator,
    SegmentView, segments_text,
};
use vstd::prelude::*;

verus! {

/// A footer item that keyboard navigation can select.
#[derive(Clone, Copy, Debug, PartialEq, Eq, Structural)]
pub enum FooterItem {
    Tasks,
    Teams,
    Bridge,
}

/// The part of the application state that the footer pills read.
#[derive(Clone, Copy, Debug, PartialEq, Eq, Structural, Default)]
pub struct AppState {
    pub repl_bridge_enabled: bool,
    /// The bridge was turned on by the user, not by configuration.
    pub repl_bridge_explicit: bool,
    pub repl_bridge_connected: bool,
    pub repl_bridge_session_active: bool,
    pub repl_bridge_reconnecting: bool,
    pub footer_selection: Option<FooterItem>,
}

/// The color key of a bridge status.
#[derive(Clone, Copy, Debug, PartialEq, Eq, Structural)]
pub enum BridgeStatusColor {
    Error,
    Warning,
    Success,
}

/// The state of the Remote Control bridge as the footer reports it.
#[derive(Clone, Copy, Debug, PartialEq, Eq, Structural)]
pub enum BridgeStatus {
    Failed,
    Reconnecting,
    Active,
    Connecting,
}

/// An error wins over everything, then reconnecting, then an active session
/// or connection; otherwise the bridge is still connecting.
pub open spec fn bridge_status_spec(
    has_error: bool,
    connected: bool,
    session_active: bool,
    reconnecting: bool,
) -> BridgeStatus {
    if has_error {
        BridgeStatus::Failed
    } else if reconnecting {
        BridgeStatus::Reconnecting
    } else if session_active || connected {
        BridgeStatus::Active
    } else {
        BridgeStatus::Connecting
    }
}

/// The bridge status for the given flags.
pub fn get_bridge_status(
    has_error: bool,
    connected: bool,
    session_active: bool,
    reconnecting: bool,
) -> (s: BridgeStatus)
    ensures
        s == bridge_status_spec(has_error, connected, session_active, reconnecting),
{
    if has_error {
        BridgeStatus::Failed
    } else if reconnecting {
        BridgeStatus::Reconnecting
    } else if session_active || connected {
        BridgeStatus::Active
    } else {
        BridgeStatus::Connecting
    }
}

/// The label of each bridge status.
pub open spec fn bridge_label_spec(status: BridgeStatus) -> Seq<char> {
    match status {
        BridgeStatus::Failed => "Remote Control failed"@,
        BridgeStatus::Reconnecting => "Remote Control reconnecting"@,
        BridgeStatus::Active => "Remote Control active"@,
        BridgeStatus::Connecting => "Remote Control connecting…"@,
    }
}

/// The color key of each bridge status.
pub open spec fn bridge_color_spec(status: BridgeStatus) -> BridgeStatusColor {
    match status {
        BridgeStatus::Failed => BridgeStatusColor::Error,
        BridgeStatus::Reconnecting | BridgeStatus::Connecting => BridgeStatusColor::Warning,
        BridgeStatus::Active => BridgeStatusColor::Success,
    }
}

impl BridgeStatus {
    /// The label shown for this status.
    pub fn label(&self) -> (s: &'static str)
        ensures
            s@ == bridge_label_spec(*self),
    {
        match self {
            BridgeStatus::Failed => "Remote Control failed",
            BridgeStatus::Reconnecting => "Remote Control reconnecting",
            BridgeStatus::Active => "Remote Control active",
            BridgeStatus::Connecting => "Remote Control connecting…",
        }
    }

    /// The color key of this status.
    pub fn color(&self) -> (c: BridgeStatusColor)
        ensures
            c == bridge_color_spec(*self),
    {
        match self {
            BridgeStatus::Failed => BridgeStatusColor::Error,
            BridgeStatus::Reconnecting | BridgeStatus::Connecting => BridgeStatusColor::Warning,
            BridgeStatus::Active => BridgeStatusColor::Success,
        }
    }
}

/// The footer segment color for a bridge status color.
pub open spec fn bridge_status_color_spec(color: BridgeStatusColor) -> NotificationColor {
    match color {
        BridgeStatusColor::Error => NotificationColor::Error,
        BridgeStatusColor::Warning => NotificationColor::Warning,
        BridgeStatusColor::Success => NotificationColor::Success,
    }
}

/// The footer segment color for a bridge status color.
pub fn bridge_status_color(color: BridgeStatusColor) -> (c: NotificationColor)
    ensures
        c == bridge_status_color_spec(color),
{
    match color {
        BridgeStatusColor::Error => NotificationColor::Error,
        BridgeStatusColor::Warning => NotificationColor::Warning,
        BridgeStatusColor::Success => NotificationColor::Success,
    }
}

/// The suffix of a selected bridge pill.
pub open spec fn enter_to_view_suffix() -> Seq<char> {
    " · Enter to view"@
}

/// The bridge pill: hidden unless the build feature, the entitlement and the
/// bridge itself are all on; a bridge turned on by configuration (not by the
/// user) shows only while reconnecting. The footer never passes an error, so
/// it never shows the failed status. A selected pill is inverted and gets a
/// dimmed "Enter to view" suffix.
pub open spec fn bridge_indicator_spec(
    state: AppState,
    feature_enabled: bool,
    entitlement_enabled: bool,
    selected: bool,
) -> Option<IndicatorView> {
    if !feature_enabled || !entitlement_enabled || !state.repl_bridge_enabled {
        None
    } else {
        let status = bridge_status_spec(
            false,
            state.repl_bridge_connected,
            state.repl_bridge_session_active,
            state.repl_bridge_reconnecting,
        );
        if !state.repl_bridge_explicit && status != BridgeStatus::Reconnecting {
            None
        } else {
            let head = seq![
                SegmentView {
                    text: bridge_label_spec(status),
                    color: Some(bridge_status_color_spec(bridge_color_spec(status))),
                    dim: false,
                },
            ];
            let segments = if selected {
                head.push(SegmentView { text: enter_to_view_suffix(), color: None, dim: true })
            } else {
                head
            };
            Some(indicator_from(segments, selected))
        }
    }
}

/// The view of an optional pill.
pub open spec fn optional_indicator_view(o: Option<PromptFooterIndicator>) -> Option<
    IndicatorView,
> {
    match o {
        Some(i) => Some(i@),
        None => None,
    }
}

/// The bridge pill for the given state, gates and selection.
pub fn bridge_status_indicator(
    state: &AppState,
    feature_enabled: bool,
    entitlement_enabled: bool,
    selected: bool,
) -> (r: Option<PromptFooterIndicator>)
    ensures
        optional_indicator_view(r) == bridge_indicator_spec(
            *state,
            feature_enabled,
            entitlement_enabled,
            selected,
        ),
{
    if !feature_enabled || !entitlement_enabled || !state.repl_bridge_enabled {
        return None;
    }
    let status = get_bridge_status(
        false,
        state.repl_bridge_connected,
        state.repl_bridge_session_active,
        state.repl_bridge_reconnecting,
    );
    if !state.repl_bridge_explicit && status != BridgeStatus::Reconnecting {
        return None;
    }
    let label = status.label().to_owned();
    let mut segments = vec![
        NotificationSegment::text(label).with_color(bridge_status_color(status.color())),
    ];
    if selected {
        segments.push(NotificationSegment::text(" · Enter to view".to_owned()).with_dim(true));
    }
    let r = PromptFooterIndicator::from_segments_with_inverse(segments, selected);
    proof {
        let spec = bridge_indicator_spec(*state, feature_enabled, entitlement_enabled, selected);
        assert(r@.segments =~= spec->0.segments);
    }
    Some(r)
}

/// Whether the bridge pill is the selected footer item.
pub open spec fn bridge_selected_spec(state: AppState) -> bool {
    state.footer_selection == Some(FooterItem::Bridge)
}

/// Whether the bridge pill is the selected footer item.
pub fn bridge_selected(state: &AppState) -> (b: bool)
    ensures
        b == bridge_selected_spec(*state),
{
    match state.footer_selection {
        Some(FooterItem::Bridge) => true,
        _ => false,
    }
}

/// The bridge pill as the footer draws it from the application state. The
/// cheap gates are checked first, and the entitlement is asked for only when
/// they pass.
pub fn bridge_indicator_from_app(
    state: &AppState,
    feature_enabled: bool,
    entitlement_enabled: impl FnOnce() -> bool,
) -> (r: Option<PromptFooterIndicator>)
    requires
        entitlement_enabled.requires(()),
    ensures
        !feature_enabled || !state.repl_bridge_enabled ==> r is None,
        feature_enabled && state.repl_bridge_enabled ==> exists|e: bool|
            entitlement_enabled.ensures((), e) && optional_indicator_view(r)
                == bridge_indicator_spec(*state, feature_enabled, e, bridge_selected_spec(*state)),
{
    if !feature_enabled || !state.repl_bridge_enabled {
        return None;
    }
    let entitled = entitlement_enabled();
    bridge_status_indicator(state, feature_enabled, entitled, bridge_selected(state))
}

/// Rows the bridge takes in the footer's right-side stack: one when its pill
/// shows, none otherwise. The entitlement is asked for only when the cheap
/// gates pass.
pub fn bridge_status_indicator_count_from_app(
    state: &AppState,
    feature_enabled: bool,
    entitlement_enabled: impl FnOnce() -> bool,
) -> (n: usize)
    requires
        entitlement_enabled.requires(()),
    ensures
        !feature_enabled || !state.repl_bridge_enabled ==> n == 0,
        feature_enabled && state.repl_bridge_enabled ==> exists|e: bool|
            entitlement_enabled.ensures((), e) && n == (if bridge_indicator_spec(
                *state,
                feature_enabled,
                e,
                bridge_selected_spec(*state),
            ) is Some {
                1usize
            } else {
                0usize
            }),
{
    if !feature_enabled || !state.repl_bridge_enabled {
        return 0;
    }
    match bridge_indicator_from_app(state, feature_enabled, entitlement_enabled) {
        Some(_) => 1,
        None => 0,
    }
}


/// The bridge pill shows only when the build feature, the entitlement and the
/// bridge are all on; a bridge that configuration (not the user) turned on
/// shows only while it reconnects; the pill never reports a failure; it is
/// inverted exactly when selected, and its text is the status label followed,
/// when selected, by the "Enter to view" suffix.
pub proof fn lemma_bridge_pill_shape(
    state: AppState,
    feature_enabled: bool,
    entitlement_enabled: bool,
    selected: bool,
)
    ensures
        ({
            let pill = bridge_indicator_spec(state, feature_enabled, entitlement_enabled, selected);
            let status = bridge_status_spec(
                false,
                state.repl_bridge_connected,
                state.repl_bridge_session_active,
                state.repl_bridge_reconnecting,
            );
            &&& pill is Some ==> feature_enabled && entitlement_enabled && state.repl_bridge_enabled
            &&& pill is Some && !state.repl_bridge_explicit ==> state.repl_bridge_reconnecting
            &&& status != BridgeStatus::Failed
            &&& pill matches Some(p) ==> {
                &&& p.inverse == selected
                &&& p.text == bridge_label_spec(status) + (if selected {
                    enter_to_view_suffix()
                } else {
                    Seq::empty()
                })
            }
            &&& feature_enabled && entitlement_enabled && state.repl_bridge_enabled
                && state.repl_bridge_explicit ==> pill is Some
        }),
{
    reveal_with_fuel(segments_text, 3);
    let status = bridge_status_spec(
        false,
        state.repl_bridge_connected,
        state.repl_bridge_session_active,
        state.repl_bridge_reconnecting,
    );
    let head = seq![
        SegmentView {
            text: bridge_label_spec(status),
            color: Some(bridge_status_color_spec(bridge_color_spec(status))),
            dim: false,
        },
    ];
    assert(head.drop_last() =~= Seq::<SegmentView>::empty());
    assert(Seq::<char>::empty() + bridge_label_spec(status) =~= bridge_label_spec(status));
    assert(bridge_label_spec(status) + Seq::<char>::empty() =~= bridge_label_spec(status));
    let two = head.push(SegmentView { text: enter_to_view_suffix(), color: None, dim: true });
    assert(two.drop_last() =~= head);
}

} // verus!
