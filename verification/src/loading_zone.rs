//! A loading zone at the edge of a room.  The player walking into it is
//! sent to the next scene and placed at the matching edge there.
use vstd::prelude::*;
use crate::bodies::BodyGroups;
use crate::direction::{Direction, direction_of_code};

verus! {

/// Where the player stands after passing a zone: one coordinate is set,
/// the other kept.
#[derive(Clone, Copy, Debug, PartialEq, Eq, Structural)]
pub enum Placement {
    /// Keep the horizontal coordinate and set the vertical one.
    SetY(u16),
    /// Keep the vertical coordinate and set the horizontal one.
    SetX(u16),
}

/// What passing a zone does.
#[derive(Debug)]
pub struct ZoneEntry {
    /// The direction the player faces afterwards.
    pub face: Direction,
    /// Where the player is placed.
    pub placement: Placement,
    /// The scene to load.
    pub target_scene: String,
}

/// Where a zone of the given direction code places the player: going up
/// puts the player at the bottom edge (160), going down at the top edge
/// (20), going left at the right edge (300), going right at the left edge
/// (20); other codes act as going up.
pub open spec fn placement_for(code: u8) -> Placement {
    if code == 1 {
        Placement::SetY(20)
    } else if code == 2 {
        Placement::SetX(300)
    } else if code == 3 {
        Placement::SetX(20)
    } else {
        Placement::SetY(160)
    }
}

/// A loading zone's own settings.
pub struct LoadingZone {
    target_scene: String,
    direction: u8,
}

impl LoadingZone {
    /// The zone's target scene.
    pub closed spec fn spec_target_scene(&self) -> Seq<char> {
        self.target_scene@
    }

    /// The zone's direction code.
    pub closed spec fn spec_direction(&self) -> u8 {
        self.direction
    }

    /// A zone leading to `target_scene` in the direction with code `direction`.
    pub fn new(target_scene: String, direction: u8) -> (z: LoadingZone)
        ensures
            z.spec_target_scene() == target_scene@,
            z.spec_direction() == direction,
    {
        LoadingZone { target_scene, direction }
    }

    /// The direction code.
    pub fn direction(&self) -> (d: u8)
        ensures
            d == self.spec_direction(),
    {
        self.direction
    }

    /// A body entered the zone.  A player who is not already being moved
    /// is sent on: returns the facing, placement and scene, or `None`.
    pub fn on_loading_zone_body_entered(&self, body: BodyGroups, player_loading: bool) -> (entry:
        Option<ZoneEntry>)
        ensures
            match entry {
                Some(e) => {
                    &&& body.player && !player_loading
                    &&& e.face == direction_of_code(self.spec_direction())
                    &&& e.placement == placement_for(self.spec_direction())
                    &&& e.target_scene@ == self.spec_target_scene()
                },
                None => !(body.player && !player_loading),
            },
    {
        if body.player && !player_loading {
            let placement = match self.direction {
                0 => Placement::SetY(160),
                1 => Placement::SetY(20),
                2 => Placement::SetX(300),
                3 => Placement::SetX(20),
                _ => Placement::SetY(160),
            };
            Some(
                ZoneEntry {
                    face: Direction::from_u8(self.direction),
                    placement,
                    target_scene: self.target_scene.clone(),
                },
            )
        } else {
            None
        }
    }
}

/// Where a player arrives after walking in direction `d`: at the edge
/// opposite the one they left by.
pub open spec fn arrival_placement(d: Direction) -> Placement {
    match d {
        Direction::Up => Placement::SetY(160),
        Direction::Down => Placement::SetY(20),
        Direction::Left => Placement::SetX(300),
        Direction::Right => Placement::SetX(20),
    }
}

/// Whatever its code, a zone places the player at the edge opposite the
/// direction it makes the player face: facing and placement always agree.
pub proof fn law_zone_places_at_opposite_edge(code: u8)
    ensures
        placement_for(code) == arrival_placement(direction_of_code(code)),
{
}

} // verus!
