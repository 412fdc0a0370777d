//! What the tray menu's entries do.
use vstd::prelude::*;
use vstd::string::StringExecFns;

verus! {

/// The menu entry that brings the main window back.
pub const SHOW_ID: &'static str = "show";

/// The menu entry that quits the application.
pub const QUIT_ID: &'static str = "quit";

/// What the host does for a tray menu event.
#[derive(Clone, Copy, Debug, PartialEq, Eq, Structural)]
pub enum TrayCommand {
    /// Show and focus the main window, if there is one; failures are ignored.
    ShowWindow,
    /// Exit the application with status 0.
    Quit,
    /// Not an entry of this menu.
    Nothing,
}

/// The command for the menu entry with this id.
pub fn menu_command(id: &String) -> (r: TrayCommand)
    ensures
        id@ == SHOW_ID@ ==> r == TrayCommand::ShowWindow,
        id@ == QUIT_ID@ ==> r == TrayCommand::Quit,
        id@ != SHOW_ID@ && id@ != QUIT_ID@ ==> r == TrayCommand::Nothing,
{
    proof {
        reveal_strlit("show");
        reveal_strlit("quit");
        assert(SHOW_ID@[0] != QUIT_ID@[0]);
    }
    let show = String::from_str(SHOW_ID);
    let quit = String::from_str(QUIT_ID);
    if *id == show {
        TrayCommand::ShowWindow
    } else if *id == quit {
        TrayCommand::Quit
    } else {
        TrayCommand::Nothing
    }
}

} // verus!
