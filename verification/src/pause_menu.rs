//! The pause menu: resume, return to the title screen, or quit.
use vstd::prelude::*;
use crate::controller::{Controller, ControllerView};
use crate::naming::text_is;

verus! {

/// Where the menu leads when its fade-out ends.
#[derive(Clone, Copy, Debug, PartialEq, Eq, Structural)]
pub enum PauseExit {
    /// Nothing happens.
    Stay,
    /// The game quits.
    Quit,
    /// The game is over and the title screen loads.
    ToTitle,
}

/// What the end of the animation `name` leads to.
pub open spec fn pause_exit_for(quitting: bool, name: Seq<char>) -> PauseExit {
    if name != "Fadeout"@ {
        PauseExit::Stay
    } else if quitting {
        PauseExit::Quit
    } else {
        PauseExit::ToTitle
    }
}

/// The pause menu's own state: whether the player chose to quit.
pub struct PauseMenu {
    quitting: bool,
}

impl View for PauseMenu {
    type V = bool;

    /// Whether the player chose to quit.
    closed spec fn view(&self) -> bool {
        self.quitting
    }
}

impl PauseMenu {
    /// A menu just opened.
    pub fn new() -> (m: PauseMenu)
        ensures
            !m@,
    {
        PauseMenu { quitting: false }
    }

    /// A frame: returns whether the back key closes the menu.
    pub fn process(&self, back_pressed: bool) -> (close: bool)
        ensures
            close == back_pressed,
    {
        back_pressed
    }

    /// The exit button was pressed: the menu fades out and then quits.
    pub fn on_button_exit_pressed(&mut self)
        ensures
            final(self)@,
    {
        self.quitting = true;
    }

    /// The animation `anim_name` ended.  After the fade-out the game quits,
    /// or it returns to the title screen, which ends the game in progress.
    pub fn on_animation_player_animation_finished(
        &self,
        anim_name: &String,
        controller: &mut Controller,
    ) -> (exit: PauseExit)
        ensures
            exit == pause_exit_for(self@, anim_name@),
            final(controller)@ == (if exit == PauseExit::ToTitle {
                ControllerView { in_game: false, ..old(controller)@ }
            } else {
                old(controller)@
            }),
            final(controller).wf() == old(controller).wf(),
    {
        if text_is(anim_name, "Fadeout") {
            if self.quitting {
                PauseExit::Quit
            } else {
                controller.set_in_game(false);
                PauseExit::ToTitle
            }
        } else {
            PauseExit::Stay
        }
    }
}

/// Choosing exit and fading out quits the game and never returns to the
/// title screen; without that choice the fade-out returns to the title.
pub proof fn law_exit_choice_decides(name: Seq<char>)
    requires
        name == "Fadeout"@,
    ensures
        pause_exit_for(true, name) == PauseExit::Quit,
        pause_exit_for(false, name) == PauseExit::ToTitle,
{
}

} // verus!
