//! The main menu's requests and what they lead to.

use vstd::prelude::*;

verus! {

/// Requests the main menu's buttons leave for the logic to handle.
#[derive(Clone, Copy, Debug, PartialEq, Eq, Default, Structural)]
pub struct MainMenuPending {
    pub start_adventure: bool,
    pub request_exit: bool,
}

/// What the menu logic does this frame.
#[derive(Clone, Copy, Debug, PartialEq, Eq, Structural)]
pub enum MainMenuAction {
    /// Quit the game.
    Exit,
    /// Load the current level and start playing.
    StartAdventure,
}

/// Takes the pending request: quitting first, then starting an adventure.
pub fn take_main_menu_action(pending: &mut MainMenuPending) -> (r: Option<MainMenuAction>)
    ensures
        old(pending).request_exit ==> r == Some(MainMenuAction::Exit) && *final(pending) == (MainMenuPending {
            request_exit: false,
            ..*old(pending)
        }),
        !old(pending).request_exit && old(pending).start_adventure ==> r == Some(MainMenuAction::StartAdventure)
            && *final(pending) == (MainMenuPending { start_adventure: false, request_exit: false }),
        !old(pending).request_exit && !old(pending).start_adventure ==> r is None && *final(pending) == *old(
            pending,
        ),
{
    if pending.request_exit {
        pending.request_exit = false;
        return Some(MainMenuAction::Exit);
    }
    if !pending.start_adventure {
        return None;
    }
    pending.start_adventure = false;
    Some(MainMenuAction::StartAdventure)
}

} // verus!
