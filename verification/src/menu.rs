//! The notifications that the native menu sends to the UI.

use vstd::prelude::*;
use vstd::string::StringExecFns;

verus! {

/// The menu item that opens a file.
pub const MENU_OPEN: &'static str = "open";

/// The menu item that saves the current file.
pub const MENU_SAVE: &'static str = "save";

/// The menu item that saves the current file under another name.
pub const MENU_SAVE_AS: &'static str = "save_as";

/// The notification that goes out when the menu item `id` is activated;
/// none for any other item.
pub open spec fn notification_text(id: Seq<char>) -> Option<Seq<char>> {
    if id == MENU_OPEN@ {
        Some("menu-open"@)
    } else if id == MENU_SAVE@ {
        Some("menu-save"@)
    } else if id == MENU_SAVE_AS@ {
        Some("menu-save-as"@)
    } else {
        None
    }
}

/// The name of the notification to send for the menu item `id`, if it has
/// one.
pub fn notification_for(id: &str) -> (event: Option<&'static str>)
    ensures
        match event {
            Some(name) => notification_text(id@) == Some(name@),
            None => notification_text(id@) is None,
        },
{
    let item = String::from_str(id);
    if item == String::from_str(MENU_OPEN) {
        Some("menu-open")
    } else if item == String::from_str(MENU_SAVE) {
        Some("menu-save")
    } else if item == String::from_str(MENU_SAVE_AS) {
        Some("menu-save-as")
    } else {
        None
    }
}

} // verus!
