//! A fountain.  The player's bullet purifies it, which heals the player;
//! the progress record remembers it, so it stays purified on later visits.
use vstd::prelude::*;
use crate::controller::{Controller, record_fountain_purified};

verus! {

/// How much health purifying a fountain gives back to the player.
pub const FOUNTAIN_HEAL: u16 = 5;

/// What purifying a fountain sets off.
#[derive(Clone, Copy, Debug, PartialEq, Eq, Structural)]
pub enum PurifyEffect {
    /// Purified as its room was entered: it only shows as purified.
    Restored,
    /// Purified in play: the purify sound and particles play and the player
    /// is healed by `heal_player`.
    Purified { heal_player: u16 },
}

/// A fountain's own state.
pub struct Fountain {
    purified: bool,
}

impl View for Fountain {
    type V = bool;

    /// Whether the fountain is purified.
    closed spec fn view(&self) -> bool {
        self.purified
    }
}

impl Fountain {
    /// A fountain not yet purified.
    pub fn new() -> (f: Fountain)
        ensures
            !f@,
    {
        Fountain { purified: false }
    }

    /// Whether the fountain is purified.
    pub fn is_purified(&self) -> (r: bool)
        ensures
            r == self@,
    {
        self.purified
    }

    /// Purifies the fountain known as `id`, and records it.
    pub fn purify(&mut self, controller: &mut Controller, room_start: bool, id: String) -> (effect:
        PurifyEffect)
        requires
            old(controller).wf(),
        ensures
            final(self)@,
            final(controller).wf(),
            final(controller)@ == record_fountain_purified(old(controller)@, id@),
            effect == (if room_start {
                PurifyEffect::Restored
            } else {
                PurifyEffect::Purified { heal_player: FOUNTAIN_HEAL }
            }),
    {
        self.purified = true;
        controller.add_fountain_purified_info(id);
        if room_start {
            PurifyEffect::Restored
        } else {
            PurifyEffect::Purified { heal_player: FOUNTAIN_HEAL }
        }
    }

    /// The fountain known as `id` enters its scene: if it was purified in an
    /// earlier visit it shows as purified again.  Returns whether it was.
    pub fn ready(&mut self, controller: &mut Controller, id: String) -> (restored: bool)
        requires
            old(controller).wf(),
        ensures
            restored == old(controller)@.fountains_purified.contains(id@),
            final(self)@ == (old(self)@ || restored),
            final(controller).wf(),
            final(controller)@ == old(controller)@,
    {
        if controller.fountain_is_purified(id.clone()) {
            let ghost before = controller@;
            self.purify(controller, true, id);
            assert(before.fountains_purified.insert(id@) =~= before.fountains_purified);
            true
        } else {
            false
        }
    }
}

} // verus!
