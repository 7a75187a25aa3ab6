//! The title screen: start a game, show the credits, toggle the speedrun
//! timer, or quit.  Its screens change as fade animations end.
use vstd::prelude::*;
use crate::controller::{Controller, ControllerView, reset_progress};
use crate::naming::text_is;

verus! {

/// The label of the speedrun timer button when the timer is on.
pub const SPEEDRUN_ON_LABEL: &'static str = "Speedrun Timer - On";

/// The label of the speedrun timer button when the timer is off.
pub const SPEEDRUN_OFF_LABEL: &'static str = "Speedrun Timer - Off";

/// How much health the player gets back when a new game starts.
pub const NEW_GAME_HEAL: u16 = 10;

/// Where the player stands when a new game starts, horizontally.
pub const NEW_GAME_X: u16 = 160;

/// Where the player stands when a new game starts, vertically.
pub const NEW_GAME_Y: u16 = 120;

/// What the end of a title screen animation leads to.
#[derive(Clone, Copy, Debug, PartialEq, Eq, Structural)]
pub enum TitleStep {
    /// Nothing happens.
    Nothing,
    /// The game quits.
    Quit,
    /// A new game starts: the progress was reset and a game is in progress.
    StartGame,
    /// The buttons become active again.
    EnableButtons,
    /// The title screen fades back in.
    PlayFadeIn,
    /// The credits fade in.
    PlayFadeInCredits,
    /// The credits are shown.
    CreditsShown,
}

/// The title screen as a mathematical value.
pub struct TitleView {
    pub credits_open: bool,
    pub quitting: bool,
}

/// The title screen's own state.
pub struct Title {
    credits_open: bool,
    quitting: bool,
}

impl View for Title {
    type V = TitleView;

    closed spec fn view(&self) -> TitleView {
        TitleView { credits_open: self.credits_open, quitting: self.quitting }
    }
}

/// The label of the speedrun timer button.
pub open spec fn speedrun_label(on: bool) -> Seq<char> {
    if on {
        SPEEDRUN_ON_LABEL@
    } else {
        SPEEDRUN_OFF_LABEL@
    }
}

/// What the end of the animation `name` leads to.
pub open spec fn title_step_for(v: TitleView, name: Seq<char>) -> TitleStep {
    if name == "Fadeout"@ {
        if v.quitting {
            TitleStep::Quit
        } else {
            TitleStep::StartGame
        }
    } else if name == "Fadein"@ {
        TitleStep::EnableButtons
    } else if name == "Fadeout Credits"@ {
        TitleStep::PlayFadeIn
    } else if name == "Fadeout Keep Music"@ {
        TitleStep::PlayFadeInCredits
    } else if name == "Fadein Credits"@ {
        TitleStep::CreditsShown
    } else {
        TitleStep::Nothing
    }
}

/// The progress record when a new game starts: reset, and in a game.
pub open spec fn game_started(c: ControllerView) -> ControllerView {
    ControllerView { in_game: true, ..reset_progress(c) }
}

/// Builds the label of the speedrun timer button.
pub fn speedrun_button_label(on: bool) -> (r: String)
    ensures
        r@ == speedrun_label(on),
{
    if on {
        String::from_str(SPEEDRUN_ON_LABEL)
    } else {
        String::from_str(SPEEDRUN_OFF_LABEL)
    }
}

impl Title {
    /// The title screen as it opens.
    pub fn new() -> (t: Title)
        ensures
            t@ == (TitleView { credits_open: false, quitting: false }),
    {
        Title { credits_open: false, quitting: false }
    }

    /// The title screen opens: returns the speedrun button's label.
    pub fn ready(&self, controller: &Controller) -> (label: String)
        ensures
            label@ == speedrun_label(controller@.speedrun_timer),
    {
        speedrun_button_label(controller.is_speedrun_timer_on())
    }

    /// A frame: the attack key closes open credits.  Returns whether the
    /// credits fade out now.
    pub fn process(&mut self, attack_pressed: bool) -> (close: bool)
        ensures
            close == title_closes_credits(old(self)@, attack_pressed),
            final(self)@ == (if close {
                TitleView { credits_open: false, ..old(self)@ }
            } else {
                old(self)@
            }),
    {
        if attack_pressed && self.credits_open {
            self.credits_open = false;
            true
        } else {
            false
        }
    }

    /// The exit button was pressed: the screen fades out and then quits.
    pub fn on_button_exit_pressed(&mut self)
        ensures
            final(self)@ == (TitleView { quitting: true, ..old(self)@ }),
    {
        self.quitting = true;
    }

    /// The speedrun timer button was pressed: the timer setting flips.
    /// Returns the button's new label.
    pub fn on_button_speedrun_timer_pressed(&self, controller: &mut Controller) -> (label: String)
        ensures
            final(controller)@ == speedrun_toggled(old(controller)@),
            final(controller).wf() == old(controller).wf(),
            label@ == speedrun_label(!old(controller)@.speedrun_timer),
    {
        let sr_value = controller.is_speedrun_timer_on();
        controller.set_speedrun_timer(!sr_value);
        speedrun_button_label(!sr_value)
    }

    /// The animation `anim_name` ended.  A fade-out quits or starts a new
    /// game; the credits open when their fade-in ends.
    pub fn on_animation_player_animation_finished(
        &mut self,
        anim_name: &String,
        controller: &mut Controller,
    ) -> (step: TitleStep)
        requires
            old(controller).wf(),
        ensures
            step == title_step_for(old(self)@, anim_name@),
            final(self)@ == title_after_animation(old(self)@, anim_name@),
            final(controller).wf(),
            final(controller)@ == (if step == TitleStep::StartGame {
                game_started(old(controller)@)
            } else {
                old(controller)@
            }),
    {
        if text_is(anim_name, "Fadeout") {
            if self.quitting {
                TitleStep::Quit
            } else {
                controller.reset();
                controller.set_in_game(true);
                TitleStep::StartGame
            }
        } else if text_is(anim_name, "Fadein") {
            TitleStep::EnableButtons
        } else if text_is(anim_name, "Fadeout Credits") {
            TitleStep::PlayFadeIn
        } else if text_is(anim_name, "Fadeout Keep Music") {
            TitleStep::PlayFadeInCredits
        } else if text_is(anim_name, "Fadein Credits") {
            self.credits_open = true;
            TitleStep::CreditsShown
        } else {
            TitleStep::Nothing
        }
    }
}

/// The progress record after the speedrun timer button was pressed.
pub open spec fn speedrun_toggled(c: ControllerView) -> ControllerView {
    ControllerView { speedrun_timer: !c.speedrun_timer, ..c }
}

/// The title screen after the animation `name` ended.
pub open spec fn title_after_animation(v: TitleView, name: Seq<char>) -> TitleView {
    if title_step_for(v, name) == TitleStep::CreditsShown {
        TitleView { credits_open: true, ..v }
    } else {
        v
    }
}

/// Whether a frame with the attack key state closes the credits.
pub open spec fn title_closes_credits(v: TitleView, attack_pressed: bool) -> bool {
    attack_pressed && v.credits_open
}

/// Pressing the speedrun button twice restores the setting, the label it
/// shows, and the rest of the progress record.
pub proof fn law_speedrun_toggle_twice(c: ControllerView)
    ensures
        speedrun_toggled(speedrun_toggled(c)) == c,
        speedrun_label(speedrun_toggled(speedrun_toggled(c)).speedrun_timer) == speedrun_label(
            c.speedrun_timer,
        ),
{
}

/// A new game starts with nothing healed, purified or cleared, while the
/// speedrun timer setting is kept.
pub proof fn law_new_game_starts_fresh(c: ControllerView, id: Seq<char>)
    ensures
        game_started(c).in_game,
        game_started(c).num_enemies_healed == 0,
        !game_started(c).enemies_healed.contains_key(id),
        !game_started(c).fountains_purified.contains(id),
        !game_started(c).rooms_cleared.contains(id),
        game_started(c).speedrun_timer == c.speedrun_timer,
{
}

/// The credits open when their fade-in ends; the next frame with the
/// attack key closes them, and with the credits closed the attack key does
/// nothing on the title screen.
pub proof fn law_credits_open_and_close(v: TitleView)
    ensures
        title_after_animation(v, "Fadein Credits"@).credits_open,
        title_closes_credits(title_after_animation(v, "Fadein Credits"@), true),
        !title_closes_credits(TitleView { credits_open: false, ..v }, true),
{
    reveal_strlit("Fadein Credits");
    reveal_strlit("Fadeout");
    reveal_strlit("Fadein");
    reveal_strlit("Fadeout Credits");
    reveal_strlit("Fadeout Keep Music");
    assert("Fadein Credits"@ != "Fadeout"@) by {
        assert("Fadein Credits"@.len() != "Fadeout"@.len());
    }
    assert("Fadein Credits"@ != "Fadein"@) by {
        assert("Fadein Credits"@.len() != "Fadein"@.len());
    }
    assert("Fadein Credits"@ != "Fadeout Credits"@) by {
        assert("Fadein Credits"@.len() != "Fadeout Credits"@.len());
    }
    assert("Fadein Credits"@ != "Fadeout Keep Music"@) by {
        assert("Fadein Credits"@.len() != "Fadeout Keep Music"@.len());
    }
}

} // verus!
