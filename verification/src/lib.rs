//! Core of a minimal desktop-application shell: static window-menu and
//! tray-menu construction, routing of tray events to actions, and one
//! greeting command exposed to the embedded window content.
//!
//! The native windowing runtime (the window itself, the event loop, the
//! process-exit call) is an external collaborator: this crate only decides
//! which action each event asks for and models its effect on the host's
//! windows.

pub mod greeting;
pub mod host;
pub mod menu;
pub mod router;
