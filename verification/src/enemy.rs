//! An ordinary enemy.  It follows the player, shoots or attacks the ground
//! under the player, and is healed by the player's bullet.  A healed enemy
//! stands still and shows a line of text while the player is near.
use vstd::prelude::*;
use crate::bodies::BodyGroups;
use crate::controller::{Controller, ControllerView, record_enemy_healed};
use crate::direction::Direction;
use crate::naming::{CASTLE_BOSS_SCENE, text_is, with_prefix};
use crate::registry::Position;

verus! {

/// The health an enemy has unless its scene sets another.
pub const DEFAULT_ENEMY_HEALTH: u16 = 2;

/// The markup put in front of a healed enemy's text.
pub const HEALED_TEXT_MARKUP: &'static str = "[wave amp=30 freq=4][center]";

/// The enemy as a mathematical value.
pub struct EnemyView {
    pub health: u16,
    pub healed: bool,
    pub in_area: bool,
    pub follow: bool,
    pub shoot: bool,
    pub fast_fire: bool,
    pub ground_attack: bool,
    pub disappear: bool,
    pub face: Direction,
    pub walking: bool,
}

/// An enemy's own state.
pub struct Enemy {
    health: u16,
    healed: bool,
    in_area: bool,
    follow: bool,
    shoot: bool,
    fast_fire: bool,
    ground_attack: bool,
    disappear: bool,
    face: Direction,
    walking: bool,
}

impl View for Enemy {
    type V = EnemyView;

    closed spec fn view(&self) -> EnemyView {
        EnemyView {
            health: self.health,
            healed: self.healed,
            in_area: self.in_area,
            follow: self.follow,
            shoot: self.shoot,
            fast_fire: self.fast_fire,
            ground_attack: self.ground_attack,
            disappear: self.disappear,
            face: self.face,
            walking: self.walking,
        }
    }
}

/// How fast an enemy shoots.
#[derive(Clone, Copy, Debug, PartialEq, Eq, Structural)]
pub enum ShootPace {
    /// Waits between 0.8 and 1.5 seconds between shots.
    Fast,
    /// Waits between 1.5 and 3 seconds between shots.
    Normal,
}

/// What an enemy sets up when it enters its scene.
#[derive(Clone, Copy, Debug, PartialEq, Eq, Structural)]
pub struct EnemyPlan {
    /// The shooting timer to start, if the enemy shoots.
    pub shoot_pace: Option<ShootPace>,
    /// Whether to start the ground attack timer.
    pub ground_attack_timer: bool,
    /// Whether to compute a path to the player and start its refresh timer.
    pub follow_path: bool,
    /// Whether to tint the sprite as a ground attacker.
    pub ground_tint: bool,
}

/// What healing an enemy sets off.
#[derive(Clone, Copy, Debug, PartialEq, Eq, Structural)]
pub enum HealEffect {
    /// Healed when its room was entered: nothing is announced.
    Quiet,
    /// Healed in play: the healed counter and the record were updated, the
    /// heal sound plays and the `healed` signal is sent.
    Recorded,
    /// Healed in play in the boss room: it fades out and disappears, and the
    /// `healed` signal is sent.
    Vanish,
}

/// What a hit did to an enemy.
#[derive(Clone, Copy, Debug, PartialEq, Eq, Structural)]
pub enum EnemyHit {
    /// The enemy lost one point of health.
    Hurt,
    /// The enemy was healed.
    Healed(HealEffect),
}

/// The enemy's velocity as the facing rule reads it: whether each
/// component is exactly zero, and each component truncated to an integer.
#[derive(Clone, Copy, Debug, PartialEq, Eq, Structural)]
pub struct VelocitySample {
    pub x_is_zero: bool,
    pub x_whole: i8,
    pub y_is_zero: bool,
    pub y_whole: i8,
}

/// The enemy with the given scene properties, before it enters its scene.
pub open spec fn enemy_start(
    health: u16,
    follow: bool,
    shoot: bool,
    fast_fire: bool,
    ground_attack: bool,
) -> EnemyView {
    EnemyView {
        health,
        healed: false,
        in_area: false,
        follow,
        shoot,
        fast_fire,
        ground_attack,
        disappear: false,
        face: Direction::Down,
        walking: false,
    }
}

/// What an enemy sets up when it enters its scene.
pub open spec fn enemy_plan(v: EnemyView) -> EnemyPlan {
    EnemyPlan {
        shoot_pace: if v.shoot {
            Some(if v.fast_fire { ShootPace::Fast } else { ShootPace::Normal })
        } else {
            None
        },
        ground_attack_timer: !v.shoot && v.ground_attack,
        follow_path: v.follow,
        ground_tint: v.ground_attack,
    }
}

/// What healing sets off, given whether it happens as the room is entered.
pub open spec fn heal_effect(v: EnemyView, room_start: bool) -> HealEffect {
    if room_start {
        HealEffect::Quiet
    } else if !v.disappear {
        HealEffect::Recorded
    } else {
        HealEffect::Vanish
    }
}

/// The progress record after an enemy's heal.
pub open spec fn record_after_heal(
    c: ControllerView,
    v: EnemyView,
    room_start: bool,
    id: Seq<char>,
    pos: Position,
) -> ControllerView {
    if heal_effect(v, room_start) == HealEffect::Recorded {
        record_enemy_healed(
            ControllerView { num_enemies_healed: (c.num_enemies_healed + 1) as u16, ..c },
            id,
            pos,
        )
    } else {
        c
    }
}

/// The enemy after one hit, before any healing.
pub open spec fn enemy_after_hit(v: EnemyView) -> EnemyView {
    let h = (v.health - 1) as u16;
    EnemyView { health: h, healed: v.healed || h <= 0, ..v }
}

/// The direction an enemy faces after moving with velocity `s`: moving
/// straight up or down, or straight left or right, at whole speed one turns
/// it that way; anything else keeps the direction it had.
pub open spec fn facing_after(face: Direction, s: VelocitySample) -> Direction {
    if s.x_is_zero {
        if s.y_whole == -1 {
            Direction::Up
        } else if s.y_whole == 1 {
            Direction::Down
        } else {
            face
        }
    } else if s.y_is_zero {
        if s.x_whole == -1 {
            Direction::Left
        } else if s.x_whole == 1 {
            Direction::Right
        } else {
            face
        }
    } else {
        face
    }
}

/// The name of the animation for a direction.
pub open spec fn direction_animation(face: Direction) -> Seq<char> {
    match face {
        Direction::Up => "up"@,
        Direction::Down => "down"@,
        Direction::Left => "left"@,
        Direction::Right => "right"@,
    }
}

/// The animation an active enemy plays: its direction, with `_walk` added
/// while it walks.
pub open spec fn facing_animation(face: Direction, walking: bool) -> Seq<char> {
    if walking {
        direction_animation(face) + "_walk"@
    } else {
        direction_animation(face)
    }
}

/// The enemy after a frame: an enemy that follows and is not healed walks
/// exactly when it moves; one that is not healed turns with its velocity.
pub open spec fn enemy_after_frame(v: EnemyView, s: VelocitySample) -> EnemyView {
    let walking = if v.follow && !v.healed {
        !(s.x_is_zero && s.y_is_zero)
    } else {
        v.walking
    };
    let face = if !v.healed {
        facing_after(v.face, s)
    } else {
        v.face
    };
    EnemyView { walking, face, ..v }
}

/// The animation an enemy plays after a frame.
pub open spec fn frame_animation(v: EnemyView, s: VelocitySample) -> Seq<char> {
    if v.healed {
        "healed"@
    } else {
        let w = enemy_after_frame(v, s);
        facing_animation(w.face, w.walking)
    }
}

impl Enemy {
    /// An enemy with the default scene properties: two points of health,
    /// following and shooting at the normal pace.
    pub fn new() -> (e: Enemy)
        ensures
            e@ == enemy_start(DEFAULT_ENEMY_HEALTH, true, true, false, false),
    {
        Enemy::with_properties(DEFAULT_ENEMY_HEALTH, true, true, false, false)
    }

    /// An enemy with the scene properties given.
    pub fn with_properties(
        health: u16,
        follow: bool,
        shoot: bool,
        fast_fire: bool,
        ground_attack: bool,
    ) -> (e: Enemy)
        ensures
            e@ == enemy_start(health, follow, shoot, fast_fire, ground_attack),
    {
        Enemy {
            health,
            healed: false,
            in_area: false,
            follow,
            shoot,
            fast_fire,
            ground_attack,
            disappear: false,
            face: Direction::Down,
            walking: false,
        }
    }

    /// Whether the enemy is healed.
    pub fn is_healed(&self) -> (r: bool)
        ensures
            r == self@.healed,
    {
        self.healed
    }

    /// The enemy's remaining health.
    pub fn health(&self) -> (h: u16)
        ensures
            h == self@.health,
    {
        self.health
    }

    /// The direction the enemy faces.
    pub fn face(&self) -> (d: Direction)
        ensures
            d == self@.face,
    {
        self.face
    }

    /// The enemy enters the scene stored in `scene_file`: in the boss room
    /// it will disappear once healed.  Returns the timers and looks to set up.
    pub fn ready(&mut self, scene_file: &String) -> (plan: EnemyPlan)
        ensures
            final(self)@ == (EnemyView {
                disappear: old(self)@.disappear || scene_file@ == CASTLE_BOSS_SCENE@,
                ..old(self)@
            }),
            plan == enemy_plan(old(self)@),
    {
        if text_is(scene_file, CASTLE_BOSS_SCENE) {
            self.disappear = true;
        }
        let shoot_pace = if self.shoot {
            Some(if self.fast_fire { ShootPace::Fast } else { ShootPace::Normal })
        } else {
            None
        };
        EnemyPlan {
            shoot_pace,
            ground_attack_timer: !self.shoot && self.ground_attack,
            follow_path: self.follow,
            ground_tint: self.ground_attack,
        }
    }

    /// An enemy healed in an earlier visit comes back healed, standing where
    /// it was healed.  Returns that position, or `None` if it was not healed.
    pub fn restore(&mut self, controller: &Controller, id: String) -> (pos: Option<Position>)
        requires
            controller.wf(),
        ensures
            match pos {
                Some(p) => {
                    &&& controller@.enemies_healed.contains_key(id@)
                    &&& p == controller@.enemies_healed[id@]
                    &&& final(self)@ == (EnemyView { healed: true, ..old(self)@ })
                },
                None => {
                    &&& !controller@.enemies_healed.contains_key(id@)
                    &&& final(self)@ == old(self)@
                },
            },
    {
        if controller.enemy_is_healed(id.clone()) {
            self.healed = true;
            Some(controller.get_healed_enemy_position(id))
        } else {
            None
        }
    }

    /// Heals the enemy.  In play (not as its room is entered) a normal enemy
    /// is counted and recorded, under `id` at `pos`; one in the boss room
    /// vanishes instead.
    pub fn heal(
        &mut self,
        controller: &mut Controller,
        room_start: bool,
        id: String,
        pos: Position,
    ) -> (effect: HealEffect)
        requires
            old(controller).wf(),
            !room_start && !old(self)@.disappear ==> old(controller)@.num_enemies_healed
                < u16::MAX,
        ensures
            effect == heal_effect(old(self)@, room_start),
            final(self)@ == (EnemyView { healed: true, ..old(self)@ }),
            final(controller).wf(),
            final(controller)@ == record_after_heal(old(controller)@, old(self)@, room_start, id@, pos),
    {
        self.healed = true;
        if room_start {
            HealEffect::Quiet
        } else if !self.disappear {
            controller.add_enemy_healed();
            controller.add_enemy_healed_info(id, pos);
            HealEffect::Recorded
        } else {
            HealEffect::Vanish
        }
    }

    /// The player's bullet hit the enemy, which stood at `pos` and is known
    /// as `id`: it loses one point of health and is healed at zero.
    pub fn hit(&mut self, controller: &mut Controller, id: String, pos: Position) -> (r: EnemyHit)
        requires
            old(self)@.health > 0,
            old(controller).wf(),
            !old(self)@.disappear ==> old(controller)@.num_enemies_healed < u16::MAX,
        ensures
            final(self)@ == enemy_after_hit(old(self)@),
            final(controller).wf(),
            match r {
                EnemyHit::Hurt => {
                    &&& final(self)@.health > 0
                    &&& final(controller)@ == old(controller)@
                },
                EnemyHit::Healed(effect) => {
                    &&& final(self)@.health == 0
                    &&& effect == heal_effect(old(self)@, false)
                    &&& final(controller)@ == record_after_heal(
                        old(controller)@,
                        old(self)@,
                        false,
                        id@,
                        pos,
                    )
                },
            },
    {
        self.health -= 1;
        if self.health <= 0 {
            let effect = self.heal(controller, false, id, pos);
            EnemyHit::Healed(effect)
        } else {
            EnemyHit::Hurt
        }
    }

    /// Whether the enemy moves towards the player this frame.
    pub fn follows_player(&self) -> (r: bool)
        ensures
            r == (self@.follow && !self@.healed),
    {
        self.follow && !self.healed
    }

    /// A frame after the enemy moved with velocity `s`: updates walking and
    /// facing, and returns the animation to play.
    pub fn animate(&mut self, s: VelocitySample) -> (anim: String)
        ensures
            final(self)@ == enemy_after_frame(old(self)@, s),
            anim@ == frame_animation(old(self)@, s),
    {
        if self.follow && !self.healed {
            self.walking = !(s.x_is_zero && s.y_is_zero);
        }
        if !self.healed {
            self.direction_management(s);
            self.sprite_animation()
        } else {
            String::from_str("healed")
        }
    }

    /// Turns the enemy with its velocity.
    fn direction_management(&mut self, s: VelocitySample)
        ensures
            final(self)@ == (EnemyView { face: facing_after(old(self)@.face, s), ..old(self)@ }),
    {
        if s.x_is_zero {
            match s.y_whole {
                -1 => self.face = Direction::Up,
                1 => self.face = Direction::Down,
                _ => {},
            }
        } else if s.y_is_zero {
            match s.x_whole {
                -1 => self.face = Direction::Left,
                1 => self.face = Direction::Right,
                _ => {},
            }
        }
    }

    /// The animation for the enemy's direction and gait.
    pub fn sprite_animation(&self) -> (anim: String)
        ensures
            anim@ == facing_animation(self@.face, self@.walking),
    {
        let anim = match self.face {
            Direction::Up => String::from_str("up"),
            Direction::Down => String::from_str("down"),
            Direction::Left => String::from_str("left"),
            Direction::Right => String::from_str("right"),
        };
        if self.walking {
            anim.concat("_walk")
        } else {
            anim
        }
    }

    /// The player entered the enemy's text area: a healed enemy starts
    /// showing its text.  Returns whether the text appears.
    pub fn on_area_text_body_entered(&mut self, body: BodyGroups) -> (show: bool)
        ensures
            show == (body.player && old(self)@.healed),
            final(self)@ == (if show {
                EnemyView { in_area: true, ..old(self)@ }
            } else {
                old(self)@
            }),
    {
        if body.player && self.healed {
            self.in_area = true;
            true
        } else {
            false
        }
    }

    /// The player left the enemy's text area: the text hides.  Returns
    /// whether it hides.
    pub fn on_area_text_body_exited(&mut self, body: BodyGroups) -> (hide: bool)
        ensures
            hide == body.player,
            final(self)@ == (if hide {
                EnemyView { in_area: false, ..old(self)@ }
            } else {
                old(self)@
            }),
    {
        if body.player {
            self.in_area = false;
            true
        } else {
            false
        }
    }

    /// How many characters of the text show next frame, given how many
    /// show now: one more while the player is near.
    pub fn next_visible_characters(&self, shown: i64) -> (n: i64)
        requires
            shown < i64::MAX,
        ensures
            n == (if self@.in_area { shown + 1 } else { shown as int }),
    {
        if self.in_area {
            shown + 1
        } else {
            shown
        }
    }

    /// Whether the enemy shoots when its shooting timer fires.
    pub fn shoots_on_timer(&self) -> (r: bool)
        ensures
            r == !self@.healed,
    {
        !self.healed
    }

    /// Whether the enemy attacks the ground when its ground attack timer
    /// fires; a healed enemy stops that timer instead.
    pub fn ground_attacks_on_timer(&self) -> (r: bool)
        ensures
            r == !self@.healed,
    {
        !self.healed
    }
}

/// The text a healed enemy shows, with its markup.
pub fn healed_text_markup(text: &String) -> (r: String)
    ensures
        r@ == HEALED_TEXT_MARKUP@ + text@,
{
    with_prefix(HEALED_TEXT_MARKUP, text)
}

/// An enemy with health `h` is healed by its `h`-th hit and by no earlier
/// one.
pub proof fn law_enemy_healed_by_last_hit(v: EnemyView)
    requires
        !v.healed,
        v.health > 0,
    ensures
        enemy_after_hit(v).healed <==> v.health == 1,
        enemy_after_hit(v).health == v.health - 1,
{
}

/// Healing in play records the enemy, with its position, exactly when it is
/// not in the boss room; healing as the room is entered records nothing.
pub proof fn law_heal_records_outside_boss_room(
    c: ControllerView,
    v: EnemyView,
    room_start: bool,
    id: Seq<char>,
    pos: Position,
)
    requires
        c.num_enemies_healed < u16::MAX,
    ensures
        room_start ==> record_after_heal(c, v, room_start, id, pos) == c,
        !room_start && !v.disappear ==> {
            &&& record_after_heal(c, v, room_start, id, pos).enemies_healed.contains_key(id)
            &&& record_after_heal(c, v, room_start, id, pos).enemies_healed[id] == pos
            &&& record_after_heal(c, v, room_start, id, pos).num_enemies_healed
                == c.num_enemies_healed + 1
        },
        !room_start && v.disappear ==> record_after_heal(c, v, room_start, id, pos) == c,
{
}

/// A healed enemy no longer turns, shoots or attacks the ground, and plays
/// the healed animation.
pub proof fn law_healed_enemy_is_still(v: EnemyView, s: VelocitySample)
    requires
        v.healed,
    ensures
        enemy_after_frame(v, s) == v,
        frame_animation(v, s) == "healed"@,
{
}

/// Moving straight along one axis at whole speed one turns an active enemy
/// that way, whatever it faced before.
pub proof fn law_facing_follows_motion(face: Direction)
    ensures
        facing_after(
            face,
            VelocitySample { x_is_zero: true, x_whole: 0, y_is_zero: false, y_whole: -1i8 },
        ) == Direction::Up,
        facing_after(
            face,
            VelocitySample { x_is_zero: true, x_whole: 0, y_is_zero: false, y_whole: 1 },
        ) == Direction::Down,
        facing_after(
            face,
            VelocitySample { x_is_zero: false, x_whole: -1i8, y_is_zero: true, y_whole: 0 },
        ) == Direction::Left,
        facing_after(
            face,
            VelocitySample { x_is_zero: false, x_whole: 1, y_is_zero: true, y_whole: 0 },
        ) == Direction::Right,
        facing_after(
            face,
            VelocitySample { x_is_zero: true, x_whole: 0, y_is_zero: true, y_whole: 0 },
        ) == face,
{
}

/// The ground attack timer starts exactly for ground attackers that do not
/// shoot; the shooting timer starts exactly for shooters, at the fast pace
/// exactly when fast fire is set; the path is followed exactly by followers.
pub proof fn law_enemy_plan_matches_properties(v: EnemyView)
    ensures
        enemy_plan(v).ground_attack_timer ==> v.ground_attack,
        enemy_plan(v).ground_attack_timer ==> !v.shoot,
        !v.shoot && v.ground_attack ==> enemy_plan(v).ground_attack_timer,
        enemy_plan(v).shoot_pace is Some <==> v.shoot,
        v.shoot ==> (enemy_plan(v).shoot_pace == Some(ShootPace::Fast) <==> v.fast_fire),
        enemy_plan(v).follow_path <==> v.follow,
        enemy_plan(v).ground_tint <==> v.ground_attack,
{
}

} // verus!
