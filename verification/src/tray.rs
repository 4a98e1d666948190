use crate::text::str_eq;
use vstd::prelude::*;

verus! {

/// What choosing a tray menu item does.
#[derive(Clone, Copy, Debug, PartialEq, Eq, Structural)]
pub enum MenuAction {
    /// Show the settings window.
    ShowSettings,
    /// Quit the application.
    Quit,
    /// Nothing.
    Nothing,
}

/// What choosing the menu item with the given id does.
pub fn menu_action(id: &str) -> (r: MenuAction)
    ensures
        id@ == "settings"@ ==> r == MenuAction::ShowSettings,
        id@ == "quit"@ ==> r == MenuAction::Quit,
        id@ != "settings"@ && id@ != "quit"@ ==> r == MenuAction::Nothing,
{
    proof {
        reveal_strlit("settings");
        reveal_strlit("quit");
    }
    assert("settings"@[0] != "quit"@[0]);
    if str_eq(id, "settings") {
        MenuAction::ShowSettings
    } else if str_eq(id, "quit") {
        MenuAction::Quit
    } else {
        MenuAction::Nothing
    }
}

/// Whether a click on the tray icon shows the settings: the left button, on release.
pub fn click_shows_settings(left_button: bool, released: bool) -> (r: bool)
    ensures
        r == (left_button && released),
{
    left_button && released
}

} // verus!
