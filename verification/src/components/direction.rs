//! The eight compass directions in which an entity can face.

use vstd::prelude::*;

verus! {

/// A facing. The eight compass directions follow one another clockwise,
/// starting from `Left`; `Still` is the facing of something that has not
/// moved yet.
#[derive(Clone, Copy, Debug, PartialEq, Eq, Hash, Structural)]
pub enum Direction {
    Left,
    UpLeft,
    Up,
    UpRight,
    Right,
    DownRight,
    Down,
    DownLeft,
    Still,
}

impl Direction {
    /// The place of the direction in the clockwise round, `Still` coming last.
    pub open spec fn spec_index(self) -> int {
        match self {
            Direction::Left => 0,
            Direction::UpLeft => 1,
            Direction::Up => 2,
            Direction::UpRight => 3,
            Direction::Right => 4,
            Direction::DownRight => 5,
            Direction::Down => 6,
            Direction::DownLeft => 7,
            Direction::Still => 8,
        }
    }

    /// The compass direction at a place of the round, counted modulo eight.
    pub open spec fn at(i: int) -> Direction {
        let k = i % 8;
        if k == 0 {
            Direction::Left
        } else if k == 1 {
            Direction::UpLeft
        } else if k == 2 {
            Direction::Up
        } else if k == 3 {
            Direction::UpRight
        } else if k == 4 {
            Direction::Right
        } else if k == 5 {
            Direction::DownRight
        } else if k == 6 {
            Direction::Down
        } else {
            Direction::DownLeft
        }
    }

    /// The direction one eighth of a turn clockwise from this one.
    pub open spec fn clockwise(self) -> Direction {
        if self is Still {
            Direction::Still
        } else {
            Direction::at(self.spec_index() + 1)
        }
    }

    /// The signs of the two components of a step in this direction.
    pub open spec fn signs(self) -> (int, int) {
        match self {
            Direction::Left => (-1, 0),
            Direction::UpLeft => (-1, 1),
            Direction::Up => (0, 1),
            Direction::UpRight => (1, 1),
            Direction::Right => (1, 0),
            Direction::DownRight => (1, -1),
            Direction::Down => (0, -1),
            Direction::DownLeft => (-1, -1),
            Direction::Still => (0, 0),
        }
    }

    /// The direction of a step, told from the signs of its components alone.
    pub open spec fn of_step(dx: int, dy: int) -> Direction {
        if dx < 0 {
            if dy < 0 {
                Direction::DownLeft
            } else if dy == 0 {
                Direction::Left
            } else {
                Direction::UpLeft
            }
        } else if dx == 0 {
            if dy < 0 {
                Direction::Down
            } else if dy == 0 {
                Direction::Still
            } else {
                Direction::Up
            }
        } else {
            if dy < 0 {
                Direction::DownRight
            } else if dy == 0 {
                Direction::Right
            } else {
                Direction::UpRight
            }
        }
    }

    pub fn is_still(self) -> (still: bool)
        ensures
            still == (self is Still),
    {
        match self {
            Direction::Still => true,
            _ => false,
        }
    }

    pub fn index(self) -> (i: u8)
        ensures
            i == self.spec_index(),
    {
        match self {
            Direction::Left => 0,
            Direction::UpLeft => 1,
            Direction::Up => 2,
            Direction::UpRight => 3,
            Direction::Right => 4,
            Direction::DownRight => 5,
            Direction::Down => 6,
            Direction::DownLeft => 7,
            Direction::Still => 8,
        }
    }
}

/// The step of one world unit per axis in a direction: each component is
/// -1, 0 or 1.
pub fn direction_to_f32_array(dir: Direction) -> (v: [i8; 2])
    ensures
        v[0] == dir.signs().0,
        v[1] == dir.signs().1,
{
    match dir {
        Direction::Left => [-1, 0],
        Direction::UpLeft => [-1, 1],
        Direction::Up => [0, 1],
        Direction::UpRight => [1, 1],
        Direction::Right => [1, 0],
        Direction::DownRight => [1, -1],
        Direction::Down => [0, -1],
        Direction::DownLeft => [-1, -1],
        Direction::Still => [0, 0],
    }
}

/// The direction in which a step points, told from the signs of its
/// components; a step of no length has the direction `Still`.
pub fn check_direction(delta: [i64; 2]) -> (dir: Direction)
    ensures
        dir == Direction::of_step(delta[0] as int, delta[1] as int),
{
    if delta[0] < 0 {
        if delta[1] < 0 {
            Direction::DownLeft
        } else if delta[1] == 0 {
            Direction::Left
        } else {
            Direction::UpLeft
        }
    } else if delta[0] == 0 {
        if delta[1] < 0 {
            Direction::Down
        } else if delta[1] == 0 {
            Direction::Still
        } else {
            Direction::Up
        }
    } else {
        if delta[1] < 0 {
            Direction::DownRight
        } else if delta[1] == 0 {
            Direction::Right
        } else {
            Direction::UpRight
        }
    }
}

} // verus!
