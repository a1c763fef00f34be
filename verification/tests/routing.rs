use tray_shell::host::{HostError, HostModel, WindowState};
use tray_shell::router::{
    handle, route, trace_message, Action, ClickKind, CursorPosition, TrayEvent,
};

fn click_id(id: &str) -> TrayEvent {
    TrayEvent::MenuItemClick { id: String::from(id) }
}

fn host_with(windows: &[(&str, bool)]) -> HostModel {
    let mut states: Vec<WindowState> = Vec::new();
    for (name, visible) in windows {
        states.push(WindowState { name: String::from(*name), visible: *visible });
    }
    HostModel::new(states)
}

#[test]
fn quit_id_routes_to_quit() {
    assert_eq!(route(&click_id("quit")), Action::Quit);
}

#[test]
fn hide_id_routes_to_hide() {
    assert_eq!(route(&click_id("hide")), Action::HideMainWindow);
}

#[test]
fn reserved_and_unknown_ids_route_to_ignore() {
    for id in ["start", "stop", "close", "", "QUIT", "quit ", "pomodoro"] {
        assert_eq!(route(&click_id(id)), Action::Ignore);
    }
}

#[test]
fn each_click_kind_routes_to_its_trace() {
    for position in [
        CursorPosition { x: 0, y: 0 },
        CursorPosition { x: -5, y: 9999 },
    ] {
        assert_eq!(
            route(&TrayEvent::LeftClick { position }),
            Action::Trace(ClickKind::Left)
        );
        assert_eq!(
            route(&TrayEvent::RightClick { position }),
            Action::Trace(ClickKind::Right)
        );
        assert_eq!(
            route(&TrayEvent::DoubleClick { position }),
            Action::Trace(ClickKind::Double)
        );
    }
}

#[test]
fn quit_click_terminates_with_exit_code_zero() {
    let mut host = host_with(&[("main", true)]);
    let a = handle(&click_id("quit"), &mut host);
    assert_eq!(a, Action::Quit);
    assert_eq!(host.exit_status, Some(0));
    assert_eq!(host.windows, host_with(&[("main", true)]).windows);
}

#[test]
fn hide_click_hides_exactly_the_main_window() {
    let mut host = host_with(&[("settings", true), ("main", true)]);
    let a = handle(&click_id("hide"), &mut host);
    assert_eq!(a, Action::HideMainWindow);
    assert_eq!(host.exit_status, None);
    assert_eq!(
        host.windows,
        host_with(&[("settings", true), ("main", false)]).windows
    );
}

#[test]
fn unknown_ids_perform_no_observable_action() {
    for id in ["start", "stop", "close", "anything"] {
        let mut host = host_with(&[("main", true)]);
        let a = handle(&click_id(id), &mut host);
        assert_eq!(a, Action::Ignore);
        assert_eq!(host, host_with(&[("main", true)]));
    }
}

#[test]
fn clicks_never_change_visibility_or_terminate() {
    let position = CursorPosition { x: 12, y: 34 };
    for event in [
        TrayEvent::LeftClick { position },
        TrayEvent::RightClick { position },
        TrayEvent::DoubleClick { position },
    ] {
        let mut host = host_with(&[("main", true)]);
        handle(&event, &mut host);
        assert_eq!(host, host_with(&[("main", true)]));
    }
}

#[test]
fn hiding_a_missing_window_is_reported_not_escalated() {
    let mut host = host_with(&[("settings", true)]);
    let r = host.hide_window(&String::from("main"));
    assert_eq!(r, Err(HostError::WindowNotFound));
    assert_eq!(host, host_with(&[("settings", true)]));
}

#[test]
fn hide_window_succeeds_when_the_window_exists() {
    let mut host = host_with(&[("main", true)]);
    let r = host.hide_window(&String::from("main"));
    assert_eq!(r, Ok(()));
    assert!(!host.windows[0].visible);
}

#[test]
fn trace_messages_name_the_click_kind() {
    assert_eq!(trace_message(ClickKind::Left), "system tray received a left click");
    assert_eq!(trace_message(ClickKind::Right), "system tray received a right click");
    assert_eq!(trace_message(ClickKind::Double), "system tray received a double click");
}
