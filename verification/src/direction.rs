use vstd::prelude::*;

verus! {

/// The four directions a character can face.
#[derive(Clone, Copy, Debug, PartialEq, Eq, Structural)]
pub enum Direction {
    Up,
    Down,
    Left,
    Right,
}

/// The direction stored under a numeric code: `0` up, `1` down, `2` left,
/// `3` right; any other code is read as up.
pub open spec fn direction_of_code(code: u8) -> Direction {
    if code == 1 {
        Direction::Down
    } else if code == 2 {
        Direction::Left
    } else if code == 3 {
        Direction::Right
    } else {
        Direction::Up
    }
}

/// The numeric code of a direction.
pub open spec fn code_of_direction(d: Direction) -> u8 {
    match d {
        Direction::Up => 0,
        Direction::Down => 1,
        Direction::Left => 2,
        Direction::Right => 3,
    }
}

impl Direction {
    /// Reads a direction from its numeric code.
    pub fn from_u8(code: u8) -> (d: Direction)
        ensures
            d == direction_of_code(code),
    {
        match code {
            1 => Direction::Down,
            2 => Direction::Left,
            3 => Direction::Right,
            _ => Direction::Up,
        }
    }

    /// The numeric code of this direction.
    pub fn to_u8(&self) -> (code: u8)
        ensures
            code == code_of_direction(*self),
    {
        match self {
            Direction::Up => 0,
            Direction::Down => 1,
            Direction::Left => 2,
            Direction::Right => 3,
        }
    }
}

/// Encoding a direction and reading it back gives the same direction, and
/// every code below four is the code of the direction it is read as.
pub proof fn law_direction_code_round_trip(d: Direction, code: u8)
    ensures
        direction_of_code(code_of_direction(d)) == d,
        code < 4 ==> code_of_direction(direction_of_code(code)) == code,
{
}

} // verus!
