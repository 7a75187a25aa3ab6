//! A ground attack: a mark under the player that erupts after a moment and
//! hurts the player if the player still stands on it.
use vstd::prelude::*;
use crate::bodies::BodyGroups;

verus! {

/// How much health a ground attack takes.
pub const GROUND_ATTACK_DAMAGE: u16 = 2;

/// A ground attack's own state: whether the player stands on it.
pub struct GroundAttack {
    in_area: bool,
}

impl View for GroundAttack {
    type V = bool;

    /// Whether the player stands on the mark.
    closed spec fn view(&self) -> bool {
        self.in_area
    }
}

impl GroundAttack {
    /// A mark with nobody on it.
    pub fn new() -> (g: GroundAttack)
        ensures
            !g@,
    {
        GroundAttack { in_area: false }
    }

    /// A body stepped on the mark.
    pub fn on_ground_attack_body_entered(&mut self, body: BodyGroups)
        ensures
            final(self)@ == mark_after_enter(old(self)@, body),
    {
        if body.player {
            self.in_area = true;
        }
    }

    /// A body stepped off the mark.
    pub fn on_ground_attack_body_exited(&mut self, body: BodyGroups)
        ensures
            final(self)@ == mark_after_exit(old(self)@, body),
    {
        if body.player {
            self.in_area = false;
        }
    }

    /// The mark erupts: returns the damage dealt to the player, if the
    /// player stands on it.
    pub fn attack(&self) -> (damage: Option<u16>)
        ensures
            damage == eruption_damage(self@),
    {
        if self.in_area {
            Some(GROUND_ATTACK_DAMAGE)
        } else {
            None
        }
    }
}

/// The mark after `body` stepped on it.
pub open spec fn mark_after_enter(standing: bool, body: BodyGroups) -> bool {
    standing || body.player
}

/// The mark after `body` stepped off it.
pub open spec fn mark_after_exit(standing: bool, body: BodyGroups) -> bool {
    standing && !body.player
}

/// The damage of an eruption.
pub open spec fn eruption_damage(standing: bool) -> Option<u16> {
    if standing {
        Some(GROUND_ATTACK_DAMAGE)
    } else {
        None
    }
}

/// The mark hurts the player who stepped on it, does not hurt the player
/// who stepped off it again, and other bodies change nothing.
pub proof fn law_ground_attack_hurts_standing_player(standing: bool, body: BodyGroups)
    ensures
        body.player ==> eruption_damage(mark_after_enter(standing, body)) == Some(
            GROUND_ATTACK_DAMAGE,
        ),
        body.player ==> eruption_damage(mark_after_exit(mark_after_enter(standing, body), body))
            == None::<u16>,
        !body.player ==> mark_after_enter(standing, body) == standing && mark_after_exit(
            standing,
            body,
        ) == standing,
{
}

} // verus!
