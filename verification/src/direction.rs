use vstd::prelude::*;

verus! {

/// One of the eight compass directions on the board. North is towards
/// rank Eight and east is towards file H.
#[derive(Debug, Clone, Copy, PartialEq, Eq, Structural)]
pub enum Direction {
    N,
    NE,
    E,
    SE,
    S,
    SW,
    W,
    NW,
}

/// The four rook directions.
pub const ORTHOGONAL_DIRECTIONS: [Direction; 4] =
    [Direction::N, Direction::E, Direction::S, Direction::W];

/// The four bishop directions.
pub const DIAGONAL_DIRECTIONS: [Direction; 4] =
    [Direction::NE, Direction::SE, Direction::SW, Direction::NW];

/// All eight directions: the queen and king directions.
pub const ADJACENT_DIRECTIONS: [Direction; 8] = [
    Direction::N,
    Direction::NE,
    Direction::E,
    Direction::SE,
    Direction::S,
    Direction::SW,
    Direction::W,
    Direction::NW,
];

impl Direction {
    /// The change in file index when stepping in this direction.
    pub open spec fn file_delta(self) -> int {
        match self {
            Direction::N => 0,
            Direction::NE => 1,
            Direction::E => 1,
            Direction::SE => 1,
            Direction::S => 0,
            Direction::SW => -1,
            Direction::W => -1,
            Direction::NW => -1,
        }
    }

    /// The change in rank index when stepping in this direction.
    pub open spec fn rank_delta(self) -> int {
        match self {
            Direction::N => 1,
            Direction::NE => 1,
            Direction::E => 0,
            Direction::SE => -1,
            Direction::S => -1,
            Direction::SW => -1,
            Direction::W => 0,
            Direction::NW => 1,
        }
    }
}

} // verus!
