//! The event router: the one logic-bearing component. A tray interaction
//! event is routed to the action it asks of the host runtime — terminate on
//! "quit", hide the main window on "hide", trace an inert click, and ignore
//! every reserved or unknown id — and the action's effect is applied to the
//! host model.

use vstd::prelude::*;

use crate::host::{hide_in, HostModel};

verus! {

/// Which inert click a tray event was.
#[derive(Clone, Copy, Debug, PartialEq, Eq, Structural)]
pub enum ClickKind {
    Left,
    Right,
    Double,
}

/// Cursor metadata delivered with a click: part of the contract the host
/// delivers, unused by routing.
#[derive(Clone, Copy, Debug, PartialEq, Eq, Structural)]
pub struct CursorPosition {
    pub x: i64,
    pub y: i64,
}

/// A tray interaction event as delivered by the host runtime.
#[derive(Debug, PartialEq, Eq)]
pub enum TrayEvent {
    LeftClick { position: CursorPosition },
    RightClick { position: CursorPosition },
    DoubleClick { position: CursorPosition },
    MenuItemClick { id: String },
}

/// The action a tray event asks of the host runtime.
#[derive(Clone, Copy, Debug, PartialEq, Eq, Structural)]
pub enum Action {
    /// Terminate the process immediately with exit code 0.
    Quit,
    /// Hide the window named "main".
    HideMainWindow,
    /// Emit the diagnostic trace for an inert click; nothing else.
    Trace(ClickKind),
    /// Reserved or unknown id: do nothing.
    Ignore,
}

/// The routing table: which action each event asks for, keyed on exact id
/// match.
pub open spec fn route_model(event: TrayEvent) -> Action {
    match event {
        TrayEvent::LeftClick { .. } => Action::Trace(ClickKind::Left),
        TrayEvent::RightClick { .. } => Action::Trace(ClickKind::Right),
        TrayEvent::DoubleClick { .. } => Action::Trace(ClickKind::Double),
        TrayEvent::MenuItemClick { id } => if id@ == "quit"@ {
            Action::Quit
        } else if id@ == "hide"@ {
            Action::HideMainWindow
        } else {
            Action::Ignore
        },
    }
}

/// Decide which action `event` asks for.
pub fn route(event: &TrayEvent) -> (a: Action)
    ensures
        a == route_model(*event),
{
    match event {
        TrayEvent::LeftClick { .. } => Action::Trace(ClickKind::Left),
        TrayEvent::RightClick { .. } => Action::Trace(ClickKind::Right),
        TrayEvent::DoubleClick { .. } => Action::Trace(ClickKind::Double),
        TrayEvent::MenuItemClick { id } => {
            let quit = String::from_str("quit");
            let hide_id = String::from_str("hide");
            if *id == quit {
                Action::Quit
            } else if *id == hide_id {
                Action::HideMainWindow
            } else {
                Action::Ignore
            }
        },
    }
}

/// The diagnostic line an inert click asks the runtime to log.
pub open spec fn trace_message_model(kind: ClickKind) -> Seq<char> {
    match kind {
        ClickKind::Left => "system tray received a left click"@,
        ClickKind::Right => "system tray received a right click"@,
        ClickKind::Double => "system tray received a double click"@,
    }
}

/// Format the diagnostic line for an inert click.
pub fn trace_message(kind: ClickKind) -> (r: String)
    ensures
        r@ == trace_message_model(kind),
{
    match kind {
        ClickKind::Left => String::from_str("system tray received a left click"),
        ClickKind::Right => String::from_str("system tray received a right click"),
        ClickKind::Double => String::from_str("system tray received a double click"),
    }
}

/// Apply `action` to the host model. The presence of the window named "main"
/// is a hard precondition of the hide action; every other action is total.
pub fn apply(action: &Action, host: &mut HostModel)
    requires
        old(host).wf(),
        old(host).running(),
        *action == Action::HideMainWindow ==> old(host).has_window("main"@),
    ensures
        final(host).wf(),
        match *action {
            Action::Quit => final(host).exit_status == Some(0i32) && final(host).windows_model() == old(host).windows_model(),
            Action::HideMainWindow => final(host).exit_status == old(host).exit_status && final(host).windows_model() == hide_in(old(host).windows_model(), "main"@),
            Action::Trace(_) => *final(host) == *old(host),
            Action::Ignore => *final(host) == *old(host),
        },
{
    match action {
        Action::Quit => {
            host.exit_status = Some(0);
            proof {
                assert(host.windows_model() == old(host).windows_model());
                assert(host.wf());
            }
        },
        Action::HideMainWindow => {
            let main = String::from_str("main");
            let _ = host.hide_window(&main);
            proof {
                crate::host::lemma_hide_in_names(old(host).windows_model(), "main"@);
                assert forall|i: int, j: int|
                    0 <= i < j < host.windows_model().len() implies host.windows_model()[i].name
                    != host.windows_model()[j].name by {
                    assert(host.windows_model()[i].name == old(host).windows_model()[i].name);
                    assert(host.windows_model()[j].name == old(host).windows_model()[j].name);
                }
                assert(host.wf());
            }
        },
        Action::Trace(_) => {},
        Action::Ignore => {},
    }
}

/// Handle one tray event: route it and apply its action to the host model;
/// the returned action is what a runtime adapter must mirror on the native
/// host. Each event is independent: the outcome depends only on the event
/// and the current host state, never on history.
pub fn handle(event: &TrayEvent, host: &mut HostModel) -> (a: Action)
    requires
        old(host).wf(),
        old(host).running(),
        route_model(*event) == Action::HideMainWindow ==> old(host).has_window("main"@),
    ensures
        a == route_model(*event),
        final(host).wf(),
        match route_model(*event) {
            Action::Quit => final(host).exit_status == Some(0i32) && final(host).windows_model() == old(host).windows_model(),
            Action::HideMainWindow => final(host).exit_status == old(host).exit_status && final(host).windows_model() == hide_in(old(host).windows_model(), "main"@),
            Action::Trace(_) => *final(host) == *old(host),
            Action::Ignore => *final(host) == *old(host),
        },
{
    let a = route(event);
    apply(&a, host);
    a
}

/// A menu click whose id is neither "quit" nor "hide" — "start", "stop",
/// "close" and every unknown id alike — asks for no action at all.
pub proof fn lemma_reserved_ids_ignored(event: TrayEvent)
    requires
        event matches TrayEvent::MenuItemClick { id } && id@ != "quit"@ && id@ != "hide"@,
    ensures
        route_model(event) == Action::Ignore,
{
}

/// A "quit" menu click always asks for process termination, whatever came
/// before it.
pub proof fn lemma_quit_routes_to_quit(event: TrayEvent)
    requires
        event matches TrayEvent::MenuItemClick { id } && id@ == "quit"@,
    ensures
        route_model(event) == Action::Quit,
{
}

/// A "hide" menu click always asks for exactly the hide of the main window.
pub proof fn lemma_hide_routes_to_hide(event: TrayEvent)
    requires
        event matches TrayEvent::MenuItemClick { id } && id@ == "hide"@,
    ensures
        route_model(event) == Action::HideMainWindow,
{
    reveal_strlit("quit");
    reveal_strlit("hide");
    assert("quit"@[0] != "hide"@[0]);
}

/// Left, right and double clicks are inert for every cursor position: they
/// ask only for a diagnostic trace, never a hide or a quit.
pub proof fn lemma_clicks_inert(event: TrayEvent)
    requires
        !(event matches TrayEvent::MenuItemClick { .. }),
    ensures
        route_model(event) matches Action::Trace(_),
{
}

} // verus!
