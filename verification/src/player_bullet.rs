//! The player's single bullet.  Fired, it flies and heals what it hits for
//! a moment; resting on the ground, it waits to be picked up again.
use vstd::prelude::*;
use crate::bodies::BodyGroups;

verus! {

/// How a bullet starts when it enters the scene.
#[derive(Clone, Copy, Debug, PartialEq, Eq, Structural)]
pub enum Launch {
    /// It flies along its rotation and the timer that ends its hitting starts.
    Fly,
    /// It rests where it is; for the player's bullet, the short timer after
    /// which it can be picked up starts.
    Rest,
}

/// The state of what the bullet touched, as the rules read it.
#[derive(Clone, Copy, Debug, PartialEq, Eq, Structural)]
pub struct TargetState {
    /// The touched enemy is already healed.
    pub enemy_healed: bool,
    /// The touched boss is already healed.
    pub boss_healed: bool,
    /// The touched fountain is already purified.
    pub fountain_purified: bool,
}

/// What the bullet does to what it touched.
#[derive(Clone, Copy, Debug, PartialEq, Eq, Structural)]
pub struct Strikes {
    /// Hit the enemy.
    pub enemy: bool,
    /// Hit the boss.
    pub boss: bool,
    /// Purify the fountain.
    pub fountain: bool,
}

/// The bullet as a mathematical value.
pub struct PlayerBulletView {
    pub stopped: bool,
    pub can_pick_up: bool,
    pub can_hit: bool,
    pub in_area: bool,
}

/// The player's bullet's own state.
pub struct PlayerBullet {
    stopped: bool,
    can_pick_up: bool,
    can_hit: bool,
    in_area: bool,
}

impl View for PlayerBullet {
    type V = PlayerBulletView;

    closed spec fn view(&self) -> PlayerBulletView {
        PlayerBulletView {
            stopped: self.stopped,
            can_pick_up: self.can_pick_up,
            can_hit: self.can_hit,
            in_area: self.in_area,
        }
    }
}

/// The bullet after it was picked up: it can neither hit nor be picked up.
pub open spec fn bullet_picked_up(v: PlayerBulletView) -> PlayerBulletView {
    PlayerBulletView { can_pick_up: false, can_hit: false, ..v }
}

/// Whether the player touching the pick-up area picks the bullet up.
pub open spec fn picks_up_on_enter(v: PlayerBulletView, body: BodyGroups) -> bool {
    body.player && v.can_pick_up
}

/// The bullet after a body entered its pick-up area.
pub open spec fn bullet_after_pick_up_enter(v: PlayerBulletView, body: BodyGroups) -> PlayerBulletView {
    if !body.player {
        v
    } else if v.can_pick_up {
        bullet_picked_up(v)
    } else {
        PlayerBulletView { in_area: true, ..v }
    }
}

/// The bullet after its pick-up timer fired: it can be picked up, and the
/// player standing on it picks it up at once.
pub open spec fn bullet_after_pick_up_timer(v: PlayerBulletView) -> PlayerBulletView {
    if v.in_area {
        bullet_picked_up(v)
    } else {
        PlayerBulletView { can_pick_up: true, ..v }
    }
}

/// What the bullet does to a body it touched.
pub open spec fn strikes_for(v: PlayerBulletView, body: BodyGroups, t: TargetState) -> Strikes {
    Strikes {
        enemy: v.can_hit && body.enemy && !t.enemy_healed,
        boss: v.can_hit && body.enemy_boss && !t.boss_healed,
        fountain: v.can_hit && body.fountain && !t.fountain_purified,
    }
}

impl PlayerBullet {
    /// A bullet that flies (`stopped` false) or rests (`stopped` true).
    pub fn new(stopped: bool) -> (b: PlayerBullet)
        ensures
            b@ == (PlayerBulletView { stopped, can_pick_up: false, can_hit: true, in_area: false }),
    {
        PlayerBullet { stopped, can_pick_up: false, can_hit: true, in_area: false }
    }

    /// How the bullet starts.
    pub fn ready(&self) -> (l: Launch)
        ensures
            l == (if self@.stopped {
                Launch::Rest
            } else {
                Launch::Fly
            }),
    {
        if !self.stopped {
            Launch::Fly
        } else {
            Launch::Rest
        }
    }

    /// Whether the bullet still heals what it touches.
    pub fn can_hit(&self) -> (r: bool)
        ensures
            r == self@.can_hit,
    {
        self.can_hit
    }

    /// Whether the bullet can be picked up.
    pub fn can_pick_up(&self) -> (r: bool)
        ensures
            r == self@.can_pick_up,
    {
        self.can_pick_up
    }

    /// A body entered the pick-up area.  Returns whether the player picked
    /// the bullet up; then the player's bullet is available again and this
    /// one is destroyed after its pick-up effects.
    pub fn on_area_pick_up_body_entered(&mut self, body: BodyGroups) -> (picked: bool)
        ensures
            picked == picks_up_on_enter(old(self)@, body),
            final(self)@ == bullet_after_pick_up_enter(old(self)@, body),
    {
        if body.player {
            if self.can_pick_up {
                self.pick_up();
                true
            } else {
                self.in_area = true;
                false
            }
        } else {
            false
        }
    }

    /// A body left the pick-up area.
    pub fn on_area_pick_up_body_exited(&mut self, body: BodyGroups)
        ensures
            final(self)@ == (if body.player {
                PlayerBulletView { in_area: false, ..old(self)@ }
            } else {
                old(self)@
            }),
    {
        if body.player {
            self.in_area = false;
        }
    }

    /// The bullet is picked up.
    fn pick_up(&mut self)
        ensures
            final(self)@ == bullet_picked_up(old(self)@),
    {
        self.can_pick_up = false;
        self.can_hit = false;
    }

    /// The pick-up timer fired.  Returns whether the player, standing on
    /// the bullet, picked it up.
    pub fn on_timer_pick_up_timeout(&mut self) -> (picked: bool)
        ensures
            picked == old(self)@.in_area,
            final(self)@ == bullet_after_pick_up_timer(old(self)@),
    {
        self.can_pick_up = true;
        if self.in_area {
            self.pick_up();
            true
        } else {
            false
        }
    }

    /// The bullet touched `body`, whose healing state is `t`: returns what
    /// it heals or purifies.
    pub fn on_player_bullet_body_entered(&self, body: BodyGroups, t: TargetState) -> (s: Strikes)
        ensures
            s == strikes_for(self@, body, t),
    {
        if self.can_hit {
            Strikes {
                enemy: body.enemy && !t.enemy_healed,
                boss: body.enemy_boss && !t.boss_healed,
                fountain: body.fountain && !t.fountain_purified,
            }
        } else {
            Strikes { enemy: false, boss: false, fountain: false }
        }
    }

    /// The flight is over: the bullet no longer heals.
    pub fn on_timer_stop_hitting_timeout(&mut self)
        ensures
            final(self)@ == (PlayerBulletView { can_hit: false, ..old(self)@ }),
    {
        self.can_hit = false;
    }
}

/// A picked-up bullet heals nothing, whatever it touches, and cannot be
/// picked up again by touching it.
pub proof fn law_picked_up_bullet_is_spent(v: PlayerBulletView, body: BodyGroups, t: TargetState, other: BodyGroups)
    ensures
        strikes_for(bullet_picked_up(v), body, t) == (Strikes {
            enemy: false,
            boss: false,
            fountain: false,
        }),
        !picks_up_on_enter(bullet_picked_up(v), other),
{
}

/// A player who walked onto a resting bullet before it could be picked up
/// picks it up when its timer fires.
pub proof fn law_waiting_player_picks_up(v: PlayerBulletView, body: BodyGroups)
    requires
        body.player,
        !v.can_pick_up,
    ensures
        bullet_after_pick_up_enter(v, body).in_area,
        bullet_after_pick_up_timer(bullet_after_pick_up_enter(v, body)) == bullet_picked_up(
            bullet_after_pick_up_enter(v, body),
        ),
{
}

/// A healed enemy or boss and a purified fountain are never struck again.
pub proof fn law_no_second_healing(v: PlayerBulletView, body: BodyGroups)
    ensures
        !strikes_for(
            v,
            body,
            TargetState { enemy_healed: true, boss_healed: true, fountain_purified: true },
        ).enemy,
        !strikes_for(
            v,
            body,
            TargetState { enemy_healed: true, boss_healed: true, fountain_purified: true },
        ).boss,
        !strikes_for(
            v,
            body,
            TargetState { enemy_healed: true, boss_healed: true, fountain_purified: true },
        ).fountain,
{
}

/// A target whose own healed or purified flag is set is never struck,
/// whatever the bullet's state, the body's groups and the other targets'
/// flags; and a bullet that can hit strikes every group of the body whose
/// target is not yet healed or purified.
pub proof fn law_settled_targets_are_never_struck(v: PlayerBulletView, body: BodyGroups, t: TargetState)
    ensures
        t.enemy_healed ==> !strikes_for(v, body, t).enemy,
        t.boss_healed ==> !strikes_for(v, body, t).boss,
        t.fountain_purified ==> !strikes_for(v, body, t).fountain,
        v.can_hit && body.enemy && !t.enemy_healed ==> strikes_for(v, body, t).enemy,
        v.can_hit && body.enemy_boss && !t.boss_healed ==> strikes_for(v, body, t).boss,
        v.can_hit && body.fountain && !t.fountain_purified ==> strikes_for(v, body, t).fountain,
        !body.enemy ==> !strikes_for(v, body, t).enemy,
        !body.enemy_boss ==> !strikes_for(v, body, t).boss,
        !body.fountain ==> !strikes_for(v, body, t).fountain,
{
}

} // verus!
