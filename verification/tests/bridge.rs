use prompt_footer::bridge::{
    bridge_indicator_from_app, bridge_status_color, bridge_status_indicator,
    bridge_status_indicator_count_from_app, get_bridge_status, AppState, BridgeStatus,
    BridgeStatusColor, FooterItem,
};
use prompt_footer::notifications::{pill_segment_color, NotificationColor};
use prompt_footer::theme::ThemeColor;

fn bridge_fixture(
    enabled: bool,
    explicit: bool,
    connected: bool,
    session_active: bool,
    reconnecting: bool,
) -> AppState {
    AppState {
        repl_bridge_enabled: enabled,
        repl_bridge_explicit: explicit,
        repl_bridge_connected: connected,
        repl_bridge_session_active: session_active,
        repl_bridge_reconnecting: reconnecting,
        footer_selection: None,
    }
}

#[test]
fn bridge_status_indicator_matches_official_footer_visibility_and_copy() {
    let explicit_connected = bridge_fixture(true, true, true, false, false);
    assert!(bridge_status_indicator(&explicit_connected, false, true, false).is_none());
    assert!(bridge_status_indicator(&explicit_connected, true, false, false).is_none());
    assert!(
        bridge_status_indicator(
            &bridge_fixture(false, true, true, false, false),
            true,
            true,
            false,
        )
        .is_none()
    );
    assert!(
        bridge_status_indicator(
            &bridge_fixture(true, false, true, false, false),
            true,
            true,
            false,
        )
        .is_none()
    );

    let active = bridge_status_indicator(
        &bridge_fixture(true, true, false, true, false),
        true,
        true,
        false,
    )
    .unwrap();
    assert_eq!(active.text, "Remote Control active");
    assert_eq!(active.segments[0].color, Some(NotificationColor::Success));
    assert!(!active.inverse);

    let connecting = bridge_status_indicator(
        &bridge_fixture(true, true, false, false, false),
        true,
        true,
        false,
    )
    .unwrap();
    assert_eq!(connecting.text, "Remote Control connecting…");
    assert_eq!(
        connecting.segments[0].color,
        Some(NotificationColor::Warning)
    );
}

#[test]
fn bridge_status_indicator_allows_implicit_reconnecting_and_selected_suffix() {
    let reconnecting = bridge_status_indicator(
        &bridge_fixture(true, false, false, false, true),
        true,
        true,
        true,
    )
    .unwrap();

    assert_eq!(
        reconnecting.text,
        "Remote Control reconnecting · Enter to view"
    );
    assert_eq!(
        reconnecting.segments[0].color,
        Some(NotificationColor::Warning)
    );
    assert!(reconnecting.segments[1].dim);
    assert!(reconnecting.inverse);
}

#[test]
fn bridge_status_precedence() {
    assert_eq!(get_bridge_status(true, true, true, true), BridgeStatus::Failed);
    assert_eq!(get_bridge_status(false, true, true, true), BridgeStatus::Reconnecting);
    assert_eq!(get_bridge_status(false, true, false, false), BridgeStatus::Active);
    assert_eq!(get_bridge_status(false, false, false, false), BridgeStatus::Connecting);
    assert_eq!(BridgeStatus::Failed.label(), "Remote Control failed");
    assert_eq!(BridgeStatus::Failed.color(), BridgeStatusColor::Error);
    assert_eq!(bridge_status_color(BridgeStatusColor::Error), NotificationColor::Error);
    assert_eq!(bridge_status_color(BridgeStatusColor::Success), NotificationColor::Success);
}

#[test]
fn bridge_count_checks_cheap_gates_before_the_entitlement() {
    let mut asked = false;
    let off = bridge_fixture(false, true, true, false, false);
    assert_eq!(
        bridge_status_indicator_count_from_app(&off, true, || {
            asked = true;
            true
        }),
        0
    );
    assert!(!asked);

    let on = bridge_fixture(true, true, true, false, false);
    assert_eq!(bridge_status_indicator_count_from_app(&on, true, || true), 1);
    assert_eq!(bridge_status_indicator_count_from_app(&on, true, || false), 0);
    assert_eq!(bridge_status_indicator_count_from_app(&on, false, || true), 0);
}

#[test]
fn selected_bridge_pill_is_inverted_and_drawn_on_the_background() {
    let mut state = bridge_fixture(true, true, true, false, false);
    state.footer_selection = Some(FooterItem::Bridge);
    let pill = bridge_indicator_from_app(&state, true, || true).unwrap();
    assert!(pill.inverse);
    assert_eq!(pill.text, "Remote Control active · Enter to view");
    assert_eq!(
        pill_segment_color(pill.inverse, pill.segments[0].color),
        ThemeColor::Background
    );
    state.footer_selection = Some(FooterItem::Tasks);
    let pill = bridge_indicator_from_app(&state, true, || true).unwrap();
    assert!(!pill.inverse);
    assert_eq!(pill.segments.len(), 1);
    assert_eq!(
        pill_segment_color(pill.inverse, pill.segments[0].color),
        ThemeColor::Success
    );
}
