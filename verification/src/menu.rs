//! The items of the application menu that the shell handles itself.

use vstd::prelude::*;
use crate::text::{opt, str_eq};

verus! {

/// The event that the web view receives for a menu item, if the item has one.
pub open spec fn spec_menu_event(id: Seq<char>) -> Option<Seq<char>> {
    if id == "refresh"@ {
        Some("menu-refresh"@)
    } else if id == "docs"@ {
        Some("menu-docs"@)
    } else if id == "about"@ {
        Some("menu-about"@)
    } else {
        None
    }
}

/// Names the event that a click on the menu item `id` sends to the web view.
/// Items that the system handles by itself have none.
pub fn menu_event(id: &str) -> (res: Option<&'static str>)
    ensures
        opt(res) == spec_menu_event(id@),
{
    if str_eq(id, "refresh") {
        Some("menu-refresh")
    } else if str_eq(id, "docs") {
        Some("menu-docs")
    } else if str_eq(id, "about") {
        Some("menu-about")
    } else {
        None
    }
}

} // verus!
