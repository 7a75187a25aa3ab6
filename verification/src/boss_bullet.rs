//! The ball the boss kicks at the player.  It hurts the player while it
//! flies and explodes a little later.
use vstd::prelude::*;
use crate::bodies::BodyGroups;
use crate::player_bullet::Launch;

verus! {

/// How much health the ball takes.
pub const BOSS_BULLET_DAMAGE: u16 = 2;

/// The ball as a mathematical value.
pub struct BossBulletView {
    pub stopped: bool,
    pub can_pick_up: bool,
    pub can_hit: bool,
}

/// The ball's own state.
pub struct BossBullet {
    stopped: bool,
    can_pick_up: bool,
    can_hit: bool,
}

impl View for BossBullet {
    type V = BossBulletView;

    closed spec fn view(&self) -> BossBulletView {
        BossBulletView { stopped: self.stopped, can_pick_up: self.can_pick_up, can_hit: self.can_hit }
    }
}

/// The damage the ball deals to a body, given whether the player is
/// briefly invulnerable.
pub open spec fn boss_bullet_damage(v: BossBulletView, body: BodyGroups, player_in_iframes: bool) -> Option<u16> {
    if v.can_hit && body.player && !player_in_iframes {
        Some(BOSS_BULLET_DAMAGE)
    } else {
        None
    }
}

impl BossBullet {
    /// A ball that flies (`stopped` false) or rests (`stopped` true).
    pub fn new(stopped: bool) -> (b: BossBullet)
        ensures
            b@ == (BossBulletView { stopped, can_pick_up: false, can_hit: true }),
    {
        BossBullet { stopped, can_pick_up: false, can_hit: true }
    }

    /// How the ball starts: a flying one moves, a resting one stops turning.
    pub fn ready(&self) -> (l: Launch)
        ensures
            l == (if self@.stopped {
                Launch::Rest
            } else {
                Launch::Fly
            }),
    {
        if !self.stopped {
            Launch::Fly
        } else {
            Launch::Rest
        }
    }

    /// Its pick-up timer fired.
    pub fn on_timer_pick_up_timeout(&mut self)
        ensures
            final(self)@ == (BossBulletView { can_pick_up: true, ..old(self)@ }),
    {
        self.can_pick_up = true;
    }

    /// The ball touched `body`: returns the damage dealt to the player.
    pub fn on_boss_bullet_body_entered(&self, body: BodyGroups, player_in_iframes: bool) -> (damage:
        Option<u16>)
        ensures
            damage == boss_bullet_damage(self@, body, player_in_iframes),
    {
        if self.can_hit && body.player && !player_in_iframes {
            Some(BOSS_BULLET_DAMAGE)
        } else {
            None
        }
    }

    /// Its hitting time is over.
    pub fn on_timer_stop_hitting_timeout(&mut self)
        ensures
            final(self)@ == (BossBulletView { can_hit: false, ..old(self)@ }),
    {
        self.can_hit = false;
    }
}

/// Once its hitting time is over the ball hurts nobody.
pub proof fn law_spent_ball_is_harmless(v: BossBulletView, body: BodyGroups, iframes: bool)
    ensures
        boss_bullet_damage(BossBulletView { can_hit: false, ..v }, body, iframes) == None::<u16>,
{
}

} // verus!
