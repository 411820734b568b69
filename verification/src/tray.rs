//! Messages the system tray sends to the application.

use vstd::prelude::*;

verus! {

/// A command chosen from the tray icon's menu.
#[derive(Debug, Clone, Copy, PartialEq, Eq, Structural)]
pub enum TrayMessage {
    /// Bring the application window to the front.
    OpenWindow,
    /// Quit the application.
    Quit,
}

} // verus!
