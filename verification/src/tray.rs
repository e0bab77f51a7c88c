//! What the items of the tray menu do.

use vstd::prelude::*;
use crate::text::str_eq;

verus! {

/// What a click in the tray menu asks for.
#[derive(Debug, Clone, Copy, PartialEq, Eq)]
pub enum TrayAction {
    /// Show the main window and give it the focus.
    ShowWindow,
    /// Tell the web view to show the status of the cluster.
    ShowStatus,
    /// Leave the application.
    Quit,
    /// Nothing.
    Ignore,
}

/// The event that tells the web view to show the status of the cluster.
pub const TRAY_SHOW_STATUS: &'static str = "tray-show-status";

/// The event that carries the health of the cluster to the web view.
pub const TRAY_HEALTH_UPDATE: &'static str = "tray-health-update";

/// What the tray menu item `id` does.
pub open spec fn spec_tray_action(id: Seq<char>) -> TrayAction {
    if id == "open"@ {
        TrayAction::ShowWindow
    } else if id == "status"@ {
        TrayAction::ShowStatus
    } else if id == "quit"@ {
        TrayAction::Quit
    } else {
        TrayAction::Ignore
    }
}

/// Decides what a click on the tray menu item `id` does.
pub fn tray_action(id: &str) -> (res: TrayAction)
    ensures
        res == spec_tray_action(id@),
{
    if str_eq(id, "open") {
        TrayAction::ShowWindow
    } else if str_eq(id, "status") {
        TrayAction::ShowStatus
    } else if str_eq(id, "quit") {
        TrayAction::Quit
    } else {
        TrayAction::Ignore
    }
}

} // verus!
