//! The final boss.  It is healed, not defeated: every hit of the player's
//! bullet lowers its health by one, and at zero it is healed, which ends
//! the game.  Between hits it attacks in one of three ways chosen by a die.
use vstd::prelude::*;
use crate::controller::{Controller, ControllerView};

verus! {

/// The health the boss starts with.
pub const BOSS_HEALTH: u16 = 15;

/// How many bullets one barrage fires.
pub const BARRAGE_LENGTH: u8 = 5;

/// The boss as a mathematical value.
pub struct DemonKingView {
    pub health: u16,
    pub healed: bool,
    pub bullet_count: u8,
    pub boss_finished: bool,
    pub fading_out: bool,
}

/// The boss's own state.
pub struct DemonKing {
    health: u16,
    healed: bool,
    bullet_count: u8,
    boss_finished: bool,
    fading_out: bool,
}

impl View for DemonKing {
    type V = DemonKingView;

    closed spec fn view(&self) -> DemonKingView {
        DemonKingView {
            health: self.health,
            healed: self.healed,
            bullet_count: self.bullet_count,
            boss_finished: self.boss_finished,
            fading_out: self.fading_out,
        }
    }
}

/// What a hit did to the boss.
#[derive(Clone, Copy, Debug, PartialEq, Eq, Structural)]
pub enum BossHit {
    /// The boss lost one point of health and plays its hit sound.
    Hurt,
    /// The boss is healed: the speedrun timer was stopped and the game ended.
    /// `long_fade` tells which closing fade to play; it is the state of the
    /// speedrun timer read after the timer was stopped.
    Healed { long_fade: bool },
}

/// The attack the boss starts.
#[derive(Clone, Copy, Debug, PartialEq, Eq, Structural)]
pub enum BossAttack {
    /// The healed boss does nothing.
    Idle,
    /// A barrage of bullets starts; the bullet timer takes over.
    Barrage,
    /// Enemies are summoned; the boss teleports afterwards.
    Summon,
    /// A ball is kicked at the player; the boss teleports afterwards.
    Kick,
}

/// What firing one bullet of a barrage leads to.
#[derive(Clone, Copy, Debug, PartialEq, Eq, Structural)]
pub enum BossFire {
    /// The healed boss fires nothing.
    Idle,
    /// A bullet was fired and another follows.
    NextBullet,
    /// The last bullet of the barrage was fired; the boss teleports.
    Teleport,
}

/// The boss before the fight.
pub open spec fn boss_start() -> DemonKingView {
    DemonKingView {
        health: BOSS_HEALTH,
        healed: false,
        bullet_count: 0,
        boss_finished: false,
        fading_out: false,
    }
}

/// The boss is healed exactly when its health is used up.
pub open spec fn boss_wf(v: DemonKingView) -> bool {
    v.healed <==> v.health == 0
}

/// The boss after one hit.
pub open spec fn boss_after_hit(v: DemonKingView) -> DemonKingView {
    DemonKingView { health: (v.health - 1) as u16, healed: v.healed || v.health - 1 <= 0, ..v }
}

/// The boss after `n` hits.
pub open spec fn boss_after_hits(v: DemonKingView, n: nat) -> DemonKingView
    decreases n,
{
    if n == 0 {
        v
    } else {
        boss_after_hit(boss_after_hits(v, (n - 1) as nat))
    }
}

/// The attack a die roll selects: `0` and `3` a barrage, `1` a summoning,
/// anything else a kick; a healed boss stays idle.
pub open spec fn boss_attack_for(v: DemonKingView, roll: u8) -> BossAttack {
    if v.healed {
        BossAttack::Idle
    } else if roll == 0 || roll == 3 {
        BossAttack::Barrage
    } else if roll == 1 {
        BossAttack::Summon
    } else {
        BossAttack::Kick
    }
}

/// The boss after an attack: a barrage restarts the bullet count.
pub open spec fn boss_after_attack(v: DemonKingView, roll: u8) -> DemonKingView {
    if boss_attack_for(v, roll) == BossAttack::Barrage {
        DemonKingView { bullet_count: 0, ..v }
    } else {
        v
    }
}

/// The boss after firing one bullet.
pub open spec fn boss_after_fire(v: DemonKingView) -> DemonKingView {
    if v.healed {
        v
    } else {
        DemonKingView { bullet_count: (v.bullet_count + 1) as u8, ..v }
    }
}

/// What firing one bullet leads to.
pub open spec fn boss_fire_for(v: DemonKingView) -> BossFire {
    if v.healed {
        BossFire::Idle
    } else if v.bullet_count + 1 < BARRAGE_LENGTH {
        BossFire::NextBullet
    } else {
        BossFire::Teleport
    }
}

/// Whether a key press after the fight starts the closing animation.
pub open spec fn boss_starts_ending(v: DemonKingView, attack_pressed: bool, back_pressed: bool) -> bool {
    (attack_pressed || back_pressed) && v.boss_finished && !v.fading_out
}

/// Whether a finished animation is the closing one.
pub open spec fn is_end_animation(name: Seq<char>) -> bool {
    name == "End"@
}

impl DemonKing {
    /// The boss before the fight.
    pub fn new() -> (b: DemonKing)
        ensures
            b@ == boss_start(),
    {
        DemonKing {
            health: BOSS_HEALTH,
            healed: false,
            bullet_count: 0,
            boss_finished: false,
            fading_out: false,
        }
    }

    /// Whether the boss is healed.
    pub fn is_healed(&self) -> (r: bool)
        ensures
            r == self@.healed,
    {
        self.healed
    }

    /// The boss's remaining health.
    pub fn health(&self) -> (h: u16)
        ensures
            h == self@.health,
    {
        self.health
    }

    /// How many bullets of the current barrage were fired.
    pub fn bullet_count(&self) -> (n: u8)
        ensures
            n == self@.bullet_count,
    {
        self.bullet_count
    }

    /// The player's bullet hit the boss.  At zero health the boss is healed:
    /// the speedrun timer stops and the game is over.
    pub fn hit(&mut self, controller: &mut Controller) -> (r: BossHit)
        requires
            old(self)@.health > 0,
        ensures
            final(self)@ == boss_after_hit(old(self)@),
            final(controller).wf() == old(controller).wf(),
            match r {
                BossHit::Hurt => {
                    &&& final(self)@.health > 0
                    &&& final(controller)@ == old(controller)@
                },
                BossHit::Healed { long_fade } => {
                    &&& final(self)@.health == 0
                    &&& final(controller)@ == (ControllerView {
                        speedrun_timer: false,
                        in_game: false,
                        ..old(controller)@
                    })
                    &&& long_fade == final(controller)@.speedrun_timer
                },
            },
    {
        self.health -= 1;
        if self.health <= 0 {
            controller.stop_timer();
            controller.set_in_game(false);
            self.healed = true;
            let long_fade = controller.is_speedrun_timer_on();
            BossHit::Healed { long_fade }
        } else {
            BossHit::Hurt
        }
    }

    /// Starts an attack chosen by `roll`, a die roll between `0` and `4`.
    pub fn attack(&mut self, roll: u8) -> (a: BossAttack)
        ensures
            a == boss_attack_for(old(self)@, roll),
            final(self)@ == boss_after_attack(old(self)@, roll),
    {
        if self.healed {
            return BossAttack::Idle;
        }
        if roll == 0 || roll == 3 {
            self.bullet_count = 0;
            BossAttack::Barrage
        } else if roll == 1 {
            BossAttack::Summon
        } else {
            BossAttack::Kick
        }
    }

    /// Fires one bullet of a barrage.
    pub fn fire_bullet(&mut self) -> (f: BossFire)
        requires
            old(self)@.bullet_count < u8::MAX,
        ensures
            f == boss_fire_for(old(self)@),
            final(self)@ == boss_after_fire(old(self)@),
    {
        if self.healed {
            return BossFire::Idle;
        }
        self.bullet_count += 1;
        if self.bullet_count < BARRAGE_LENGTH {
            BossFire::NextBullet
        } else {
            BossFire::Teleport
        }
    }

    /// Whether the boss vanishes when its teleport timer fires: not once healed.
    pub fn tele_out(&self) -> (r: bool)
        ensures
            r == !self@.healed,
    {
        !self.healed
    }

    /// The fight's closing scene is over; keys may now end the game.
    pub fn end_game(&mut self)
        ensures
            final(self)@ == (DemonKingView { boss_finished: true, ..old(self)@ }),
    {
        self.boss_finished = true;
    }

    /// A frame with the attack or back key state: returns whether the
    /// closing animation starts now.  It starts once, after the fight.
    pub fn process(&mut self, attack_pressed: bool, back_pressed: bool) -> (r: bool)
        ensures
            r == boss_starts_ending(old(self)@, attack_pressed, back_pressed),
            final(self)@ == (if r {
                DemonKingView { fading_out: true, ..old(self)@ }
            } else {
                old(self)@
            }),
    {
        if (attack_pressed || back_pressed) && self.boss_finished && !self.fading_out {
            self.fading_out = true;
            true
        } else {
            false
        }
    }

    /// Whether the animation that just finished is the closing one, after
    /// which the game returns to the title screen.
    pub fn on_animation_finished(&self, anim_name: String) -> (r: bool)
        ensures
            r == is_end_animation(anim_name@),
    {
        anim_name == String::from_str("End")
    }
}

/// A boss that is healed exactly when its health is used up stays so after
/// every hit, attack and shot, and the fight starts that way.
pub proof fn law_boss_healed_iff_no_health(v: DemonKingView, roll: u8)
    requires
        boss_wf(v),
    ensures
        v.health > 0 ==> boss_wf(boss_after_hit(v)),
        boss_wf(boss_after_attack(v, roll)),
        boss_wf(boss_after_fire(v)),
        boss_wf(boss_start()),
{
}

/// From the start of the fight, the boss is healed by its fifteenth hit and
/// by no earlier one.
pub proof fn law_boss_heals_on_fifteenth_hit(n: nat)
    requires
        n <= BOSS_HEALTH,
    ensures
        boss_after_hits(boss_start(), n).health == BOSS_HEALTH - n,
        boss_after_hits(boss_start(), n).healed <==> n == BOSS_HEALTH,
    decreases n,
{
    if n > 0 {
        law_boss_heals_on_fifteenth_hit((n - 1) as nat);
    }
}

/// A healed boss neither attacks, nor fires, nor teleports away, and its
/// state does not change.
pub proof fn law_healed_boss_is_idle(v: DemonKingView, roll: u8)
    requires
        v.healed,
    ensures
        boss_attack_for(v, roll) == BossAttack::Idle,
        boss_after_attack(v, roll) == v,
        boss_fire_for(v) == BossFire::Idle,
        boss_after_fire(v) == v,
{
}

/// A barrage fires exactly five bullets: after the attack that starts it,
/// the first four shots are followed by another and the fifth ends it.
pub proof fn law_barrage_fires_five(v: DemonKingView, roll: u8)
    requires
        !v.healed,
        roll == 0 || roll == 3,
    ensures
        ({
            let s0 = boss_after_attack(v, roll);
            let s1 = boss_after_fire(s0);
            let s2 = boss_after_fire(s1);
            let s3 = boss_after_fire(s2);
            let s4 = boss_after_fire(s3);
            &&& boss_fire_for(s0) == BossFire::NextBullet
            &&& boss_fire_for(s1) == BossFire::NextBullet
            &&& boss_fire_for(s2) == BossFire::NextBullet
            &&& boss_fire_for(s3) == BossFire::NextBullet
            &&& boss_fire_for(s4) == BossFire::Teleport
        }),
{
}

/// The closing animation starts at most once: after it has started, no key
/// press starts it again.
pub proof fn law_ending_starts_once(v: DemonKingView, a1: bool, b1: bool, a2: bool, b2: bool)
    requires
        boss_starts_ending(v, a1, b1),
    ensures
        !boss_starts_ending(DemonKingView { fading_out: true, ..v }, a2, b2),
{
}

/// Once the fight is over and the closing animation has not started, either
/// key starts it, and a frame with neither key does not; before the fight is
/// over no key starts it.
pub proof fn law_either_key_starts_ending(v: DemonKingView, a: bool, b: bool)
    ensures
        v.boss_finished && !v.fading_out ==> (boss_starts_ending(v, a, b) <==> (a || b)),
        !v.boss_finished ==> !boss_starts_ending(v, a, b),
        v.fading_out ==> !boss_starts_ending(v, a, b),
{
}

} // verus!
