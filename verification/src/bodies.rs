//! What the game knows of a physics body that touches an area: the groups
//! the engine has placed it in.
use vstd::prelude::*;

verus! {

/// Membership of a body in the scene groups the game rules look at.
#[derive(Clone, Copy, Debug, PartialEq, Eq, Structural)]
pub struct BodyGroups {
    pub player: bool,
    pub enemy: bool,
    pub enemy_boss: bool,
    pub player_bullet: bool,
    pub bullet: bool,
    pub fountain: bool,
}

impl BodyGroups {
    /// A body that belongs to no group the rules look at.
    pub fn none() -> (g: BodyGroups)
        ensures
            !g.player && !g.enemy && !g.enemy_boss && !g.player_bullet && !g.bullet && !g.fountain,
    {
        BodyGroups {
            player: false,
            enemy: false,
            enemy_boss: false,
            player_bullet: false,
            bullet: false,
            fountain: false,
        }
    }

    /// A body that belongs to the player group only.
    pub fn player_only() -> (g: BodyGroups)
        ensures
            g.player && !g.enemy && !g.enemy_boss && !g.player_bullet && !g.bullet && !g.fountain,
    {
        BodyGroups { player: true, ..BodyGroups::none() }
    }
}

} // verus!
