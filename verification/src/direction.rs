//! The eight-way compass used for aiming, and the vectors that go with it.

use vstd::prelude::*;

use crate::input::KeyboardInput;

verus! {

/// One of the eight headings a shot can take.
#[derive(Debug, Clone, Copy, PartialEq, Eq, Structural)]
pub enum Direction {
    North,
    NorthEast,
    NorthWest,
    East,
    West,
    South,
    SouthEast,
    Southwest,
}

/// Length of a cardinal offset, in tenths: `1.0`.
pub const CARDINAL_TENTHS: i32 = 10;

/// Length of each component of a diagonal offset, in tenths: `0.7`.
pub const DIAGONAL_TENTHS: i32 = 7;

impl Direction {
    /// `1` for the headings with an eastward part, `-1` for those with a
    /// westward part, `0` for north and south.
    pub open spec fn horizontal(self) -> int {
        match self {
            Direction::NorthEast | Direction::East | Direction::SouthEast => 1,
            Direction::NorthWest | Direction::West | Direction::Southwest => -1,
            Direction::North | Direction::South => 0,
        }
    }

    /// `1` for the headings with a northward part, `-1` for those with a
    /// southward part, `0` for east and west.
    pub open spec fn vertical(self) -> int {
        match self {
            Direction::North | Direction::NorthEast | Direction::NorthWest => 1,
            Direction::South | Direction::SouthEast | Direction::Southwest => -1,
            Direction::East | Direction::West => 0,
        }
    }

    /// Whether the heading runs along both axes.
    pub open spec fn is_diagonal(self) -> bool {
        self.horizontal() != 0 && self.vertical() != 0
    }

    /// The heading that runs `horizontal` along x and `vertical` along y,
    /// each of them `-1`, `0` or `1`; none where both are zero.
    pub open spec fn from_axes(horizontal: int, vertical: int) -> Option<Direction> {
        if horizontal == 0 && vertical == 1 {
            Some(Direction::North)
        } else if horizontal == 1 && vertical == 1 {
            Some(Direction::NorthEast)
        } else if horizontal == -1 && vertical == 1 {
            Some(Direction::NorthWest)
        } else if horizontal == 1 && vertical == 0 {
            Some(Direction::East)
        } else if horizontal == -1 && vertical == 0 {
            Some(Direction::West)
        } else if horizontal == 0 && vertical == -1 {
            Some(Direction::South)
        } else if horizontal == 1 && vertical == -1 {
            Some(Direction::SouthEast)
        } else if horizontal == -1 && vertical == -1 {
            Some(Direction::Southwest)
        } else {
            None
        }
    }

    /// The offset vector of the heading, in tenths: a cardinal heading has
    /// length `1.0` along its axis, a diagonal one `0.7` along each.
    pub open spec fn offset(self) -> (int, int) {
        let length: int = if self.is_diagonal() {
            DIAGONAL_TENTHS as int
        } else {
            CARDINAL_TENTHS as int
        };
        (self.horizontal() * length, self.vertical() * length)
    }
}

/// The vertical part of the aim: up wins over down.
pub open spec fn aim_vertical(keys: KeyboardInput) -> int {
    if keys.up {
        1
    } else if keys.down {
        -1
    } else {
        0
    }
}

/// The horizontal part of the aim. With both side keys held, left wins,
/// except while down alone gives the vertical part: there right wins.
pub open spec fn aim_horizontal(keys: KeyboardInput) -> int {
    if keys.left && keys.right {
        if aim_vertical(keys) == -1 {
            1
        } else {
            -1
        }
    } else if keys.left {
        -1
    } else if keys.right {
        1
    } else {
        0
    }
}

/// The heading that the arrow keys ask for; the previous one where none of
/// them is held.
pub open spec fn aim(keys: KeyboardInput, previous: Direction) -> Direction {
    match Direction::from_axes(aim_horizontal(keys), aim_vertical(keys)) {
        Some(direction) => direction,
        None => previous,
    }
}

/// Reads the aim from the arrow keys and remembers it as the last heading.
pub fn determine_direction(keyboard_input: &KeyboardInput, past_direction: &mut Direction) -> (latest:
    Direction)
    ensures
        latest == aim(*keyboard_input, *old(past_direction)),
        *final(past_direction) == latest,
{
    let mut latest_direction = *past_direction;
    if keyboard_input.up && !(keyboard_input.left || keyboard_input.right) {
        latest_direction = Direction::North;
    } else if keyboard_input.down && !(keyboard_input.left || keyboard_input.right) {
        latest_direction = Direction::South;
    } else if keyboard_input.up && keyboard_input.left {
        latest_direction = Direction::NorthWest;
    } else if keyboard_input.up && keyboard_input.right {
        latest_direction = Direction::NorthEast;
    } else if keyboard_input.down && keyboard_input.right {
        latest_direction = Direction::SouthEast;
    } else if keyboard_input.down && keyboard_input.left {
        latest_direction = Direction::Southwest;
    } else if keyboard_input.left {
        latest_direction = Direction::West;
    } else if keyboard_input.right {
        latest_direction = Direction::East;
    }
    *past_direction = latest_direction;
    latest_direction
}

/// The offset vector of a heading, in tenths.
pub fn offset_for(direction: Direction) -> (offset: (i32, i32))
    ensures
        offset.0 == direction.offset().0,
        offset.1 == direction.offset().1,
{
    match direction {
        Direction::North => (0, CARDINAL_TENTHS),
        Direction::NorthEast => (DIAGONAL_TENTHS, DIAGONAL_TENTHS),
        Direction::NorthWest => (-DIAGONAL_TENTHS, DIAGONAL_TENTHS),
        Direction::South => (0, -CARDINAL_TENTHS),
        Direction::SouthEast => (DIAGONAL_TENTHS, -DIAGONAL_TENTHS),
        Direction::Southwest => (-DIAGONAL_TENTHS, -DIAGONAL_TENTHS),
        Direction::East => (CARDINAL_TENTHS, 0),
        Direction::West => (-CARDINAL_TENTHS, 0),
    }
}

/// Holding no arrow key keeps the previous heading.
pub proof fn aim_keeps_heading_without_keys(keys: KeyboardInput, previous: Direction)
    requires
        !keys.up && !keys.down && !keys.left && !keys.right,
    ensures
        aim(keys, previous) == previous,
{
}

/// Holding any arrow key decides the heading, whatever the previous one was.
pub proof fn aim_follows_keys(keys: KeyboardInput, previous: Direction, other: Direction)
    requires
        keys.up || keys.down || keys.left || keys.right,
    ensures
        aim(keys, previous) == aim(keys, other),
        aim(keys, previous).horizontal() == aim_horizontal(keys),
        aim(keys, previous).vertical() == aim_vertical(keys),
{
}

/// Each heading has an offset of its own: there are eight of them.
pub proof fn offsets_are_distinct(a: Direction, b: Direction)
    requires
        a != b,
    ensures
        a.offset() != b.offset(),
{
}

/// A cardinal offset is a unit vector along one axis; a diagonal one has
/// `0.7` along both.
pub proof fn offset_lengths(direction: Direction)
    ensures
        !direction.is_diagonal() ==> {
            ||| direction.offset() == (0int, CARDINAL_TENTHS as int)
            ||| direction.offset() == (0int, -CARDINAL_TENTHS as int)
            ||| direction.offset() == (CARDINAL_TENTHS as int, 0int)
            ||| direction.offset() == (-CARDINAL_TENTHS as int, 0int)
        },
        direction.is_diagonal() ==> {
            &&& direction.offset().0 == DIAGONAL_TENTHS || direction.offset().0 == -DIAGONAL_TENTHS
            &&& direction.offset().1 == DIAGONAL_TENTHS || direction.offset().1 == -DIAGONAL_TENTHS
        },
{
}

} // verus!
