use vstd::prelude::*;

verus! {

/// One of the two sides of a chess game.
#[derive(Debug, Clone, Copy, PartialEq, Eq, Structural)]
pub enum Player {
    White,
    Black,
}

impl Player {
    /// The opponent of this player.
    pub open spec fn spec_flip(self) -> Player {
        match self {
            Player::White => Player::Black,
            Player::Black => Player::White,
        }
    }

    /// Returns the opponent of this player.
    #[verifier::when_used_as_spec(spec_flip)]
    pub fn flip(self) -> (r: Player)
        ensures
            r == self.spec_flip(),
    {
        match self {
            Player::White => Player::Black,
            Player::Black => Player::White,
        }
    }

    /// Returns this player's lowercase English name.
    pub fn string(self) -> (r: &'static str)
        ensures
            self is White ==> r@ == "white"@,
            self is Black ==> r@ == "black"@,
    {
        match self {
            Player::White => "white",
            Player::Black => "black",
        }
    }
}

} // verus!
