use vstd::prelude::*;
use crate::sized_enum::SizedEnum;

verus! {

/// The number of directions a room can have an exit in.
pub const NUM_DIRECTIONS: usize = 6;

/// A compass direction (plus up and down) in which the player can move.
#[derive(Debug, Copy, Clone, PartialEq, Eq, Structural)]
pub enum Direction {
    North,
    South,
    East,
    West,
    Up,
    Down,
}

impl Direction {
    /// The position of this direction in a room's exit table.
    pub open spec fn index_spec(self) -> int {
        match self {
            Direction::North => 0,
            Direction::South => 1,
            Direction::East => 2,
            Direction::West => 3,
            Direction::Up => 4,
            Direction::Down => 5,
        }
    }

    pub fn index(self) -> (i: usize)
        ensures
            i == self.index_spec(),
            i < NUM_DIRECTIONS,
    {
        match self {
            Direction::North => 0,
            Direction::South => 1,
            Direction::East => 2,
            Direction::West => 3,
            Direction::Up => 4,
            Direction::Down => 5,
        }
    }

    /// The single key a player types to move this way.
    pub fn character(self) -> (c: char)
        ensures
            c == self.character_spec(),
    {
        match self {
            Direction::North => 'n',
            Direction::South => 's',
            Direction::East => 'e',
            Direction::West => 'w',
            Direction::Up => 'u',
            Direction::Down => 'd',
        }
    }

    pub open spec fn character_spec(self) -> char {
        match self {
            Direction::North => 'n',
            Direction::South => 's',
            Direction::East => 'e',
            Direction::West => 'w',
            Direction::Up => 'u',
            Direction::Down => 'd',
        }
    }

    pub open spec fn opposite_spec(self) -> Direction {
        match self {
            Direction::North => Direction::South,
            Direction::South => Direction::North,
            Direction::East => Direction::West,
            Direction::West => Direction::East,
            Direction::Up => Direction::Down,
            Direction::Down => Direction::Up,
        }
    }

    /// The direction that leads back where you came from.
    pub fn opposite(self) -> (d: Direction)
        ensures
            d == self.opposite_spec(),
    {
        match self {
            Direction::North => Direction::South,
            Direction::South => Direction::North,
            Direction::East => Direction::West,
            Direction::West => Direction::East,
            Direction::Up => Direction::Down,
            Direction::Down => Direction::Up,
        }
    }

    /// The word used when narrating movement in this direction.
    pub fn name(self) -> (s: &'static str)
        ensures
            self == Direction::North ==> s@ == "north"@,
            self == Direction::South ==> s@ == "south"@,
            self == Direction::East ==> s@ == "east"@,
            self == Direction::West ==> s@ == "west"@,
            self == Direction::Up ==> s@ == "up"@,
            self == Direction::Down ==> s@ == "down"@,
    {
        match self {
            Direction::North => "north",
            Direction::South => "south",
            Direction::East => "east",
            Direction::West => "west",
            Direction::Up => "up",
            Direction::Down => "down",
        }
    }
}

impl SizedEnum for Direction {
    open spec fn size_spec() -> usize {
        6
    }

    fn size() -> (n: usize)
        ensures
            n == Direction::size_spec(),
    {
        NUM_DIRECTIONS
    }

    fn from_index(i: usize) -> (r: Option<Direction>)
        ensures
            r is Some <==> i < Direction::size_spec(),
    {
        match i {
            0 => Some(Direction::North),
            1 => Some(Direction::South),
            2 => Some(Direction::East),
            3 => Some(Direction::West),
            4 => Some(Direction::Up),
            5 => Some(Direction::Down),
            _ => None,
        }
    }
}

/// The opposite of the opposite of a direction is the direction itself,
/// so following an exit and its reverse returns the walker's bearing.
pub proof fn lemma_opposite_involutive(d: Direction)
    ensures
        d.opposite_spec().opposite_spec() == d,
{
}

} // verus!
