//! An enemy's bullet.  It hurts the player and vanishes on whatever it
//! touches except other bullets.
use vstd::prelude::*;
use crate::bodies::BodyGroups;

verus! {

/// How much health an enemy bullet takes.
pub const BULLET_DAMAGE: u16 = 1;

/// What touching a body does.
#[derive(Clone, Copy, Debug, PartialEq, Eq, Structural)]
pub struct BulletCollision {
    /// The damage dealt to the player, if any.
    pub damage: Option<u16>,
    /// Whether the bullet is removed.
    pub delete: bool,
}

/// What an enemy bullet touching `body` does.
pub open spec fn bullet_collision(body: BodyGroups, player_in_iframes: bool) -> BulletCollision {
    BulletCollision {
        damage: if body.player && !player_in_iframes {
            Some(BULLET_DAMAGE)
        } else {
            None
        },
        delete: !body.bullet,
    }
}

/// An enemy bullet; it holds no state of its own.
pub struct Bullet {}

impl Bullet {
    /// A new enemy bullet.
    pub fn new() -> (b: Bullet) {
        Bullet {  }
    }

    /// The bullet touched `body`, given whether the player is briefly
    /// invulnerable.
    pub fn collision(&self, body: BodyGroups, player_in_iframes: bool) -> (c: BulletCollision)
        ensures
            c == bullet_collision(body, player_in_iframes),
    {
        let damage = if body.player && !player_in_iframes {
            Some(BULLET_DAMAGE)
        } else {
            None
        };
        BulletCollision { damage, delete: !body.bullet }
    }
}

/// Bullets pass through each other, and a bullet that hits the player is
/// removed.
pub proof fn law_bullets_pass_each_other(body: BodyGroups, iframes: bool)
    ensures
        body.bullet ==> !bullet_collision(body, iframes).delete,
        body.player && !body.bullet ==> bullet_collision(body, iframes).delete,
{
}

/// An enemy bullet damages only the player, and only while the player is
/// not briefly invulnerable; then it deals exactly one point.
pub proof fn law_bullet_damages_only_player(body: BodyGroups, iframes: bool)
    ensures
        bullet_collision(body, iframes).damage is Some ==> body.player && !iframes,
        !body.player ==> bullet_collision(body, iframes).damage == None::<u16>,
        iframes ==> bullet_collision(body, iframes).damage == None::<u16>,
        body.player && !iframes ==> bullet_collision(body, iframes).damage == Some(1u16),
{
}

} // verus!
