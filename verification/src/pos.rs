use vstd::prelude::*;

use crate::bitboard::Bitboard;
use crate::consts::{
    ADJACENT_BITBOARDS, BISHOP_MOVE_BITBOARDS, BLACK_PAWN_CHECK_BITBOARDS, KNIGHT_BITBOARDS,
    ROOK_MOVE_BITBOARDS, WHITE_PAWN_CHECK_BITBOARDS,
};
use crate::direction::Direction;
use crate::file::{spec_file_from_char, spec_file_value, File};
use crate::rank::{spec_rank_from_char, spec_rank_value, Rank};

verus! {

/// A square of the board, encoded as `file * 8 + rank` with both
/// components below 8; every valid square index is below 64.
#[derive(Debug, Clone, Copy, PartialEq, Eq, Structural)]
pub struct Pos {
    pub pos: u8,
}

impl Pos {
    /// Whether the encoded square index is on the board.
    pub open spec fn valid(self) -> bool {
        self.pos < 64
    }

    /// The index of this square's file.
    pub open spec fn spec_file(self) -> u8 {
        self.pos / 8
    }

    /// The index of this square's rank.
    pub open spec fn spec_rank(self) -> u8 {
        self.pos % 8
    }

    /// The square one step in the given direction, or `None` when the
    /// step leaves the board.
    pub open spec fn spec_offset(self, direction: Direction) -> Option<Pos> {
        let f = self.pos / 8 + direction.file_delta();
        let r = self.pos % 8 + direction.rank_delta();
        if 0 <= f < 8 && 0 <= r < 8 {
            Some(Pos { pos: (f * 8 + r) as u8 })
        } else {
            None
        }
    }

    /// Constructs the square with the given file and rank.
    pub fn new(file: File, rank: Rank) -> (r: Self)
        ensures
            r.pos == spec_file_value(file) * 8 + spec_rank_value(rank),
            r.valid(),
            r.spec_file() == spec_file_value(file),
            r.spec_rank() == spec_rank_value(rank),
    {
        Self { pos: file.value() * 8 + rank.value() }
    }

    /// Returns this square's file.
    pub fn file(self) -> (r: File)
        requires
            self.valid(),
        ensures
            spec_file_value(r) == self.spec_file(),
    {
        File::from_value(self.pos / 8)
    }

    /// Returns this square's rank.
    pub fn rank(self) -> (r: Rank)
        requires
            self.valid(),
        ensures
            spec_rank_value(r) == self.spec_rank(),
    {
        Rank::from_value(self.pos % 8)
    }

    /// Returns this square's index (below 64).
    pub fn value(self) -> (r: u8)
        ensures
            r == self.pos,
    {
        self.pos
    }

    /// Constructs the square with the given index, which must be below
    /// 64.
    pub fn from_value(value: u8) -> (r: Self)
        requires
            value < 64,
        ensures
            r.pos == value,
            r.valid(),
    {
        Self { pos: value }
    }

    /// Returns the set of squares adjacent to this one.
    pub fn adjacent(self) -> (r: Bitboard)
        requires
            self.valid(),
        ensures
            r.value == ADJACENT_BITBOARDS[self.pos as int],
    {
        Bitboard::new(ADJACENT_BITBOARDS[self.pos as usize])
    }

    /// Returns the set of squares a knight on this square can jump to.
    pub fn knight_moves(self) -> (r: Bitboard)
        requires
            self.valid(),
        ensures
            r.value == KNIGHT_BITBOARDS[self.pos as int],
    {
        Bitboard::new(KNIGHT_BITBOARDS[self.pos as usize])
    }

    /// Returns every other square sharing a diagonal with this one.
    pub fn bishop_moves(self) -> (r: Bitboard)
        requires
            self.valid(),
        ensures
            r.value == BISHOP_MOVE_BITBOARDS[self.pos as int],
    {
        Bitboard::new(BISHOP_MOVE_BITBOARDS[self.pos as usize])
    }

    /// Returns every other square sharing this square's rank or file.
    pub fn rook_moves(self) -> (r: Bitboard)
        requires
            self.valid(),
        ensures
            r.value == ROOK_MOVE_BITBOARDS[self.pos as int],
    {
        Bitboard::new(ROOK_MOVE_BITBOARDS[self.pos as usize])
    }

    /// Returns every other square a queen on an empty board could reach
    /// from this one.
    pub fn queen_moves(self) -> (r: Bitboard)
        requires
            self.valid(),
        ensures
            r.value == (BISHOP_MOVE_BITBOARDS[self.pos as int] | ROOK_MOVE_BITBOARDS[
                self.pos as int]),
    {
        self.bishop_moves().or(self.rook_moves())
    }

    /// Returns the union of this square's knight-jump squares and every
    /// square sharing its rank, file, or a diagonal.
    pub fn all_moves(self) -> (r: Bitboard)
        requires
            self.valid(),
        ensures
            r.value == (KNIGHT_BITBOARDS[self.pos as int] | BISHOP_MOVE_BITBOARDS[
                self.pos as int] | ROOK_MOVE_BITBOARDS[self.pos as int]),
    {
        self.knight_moves().or(self.bishop_moves()).or(self.rook_moves())
    }

    /// Returns the squares from which a white pawn attacks this square.
    pub fn white_pawn_checks(self) -> (r: Bitboard)
        requires
            self.valid(),
        ensures
            r.value == WHITE_PAWN_CHECK_BITBOARDS[self.pos as int],
    {
        Bitboard::new(WHITE_PAWN_CHECK_BITBOARDS[self.pos as usize])
    }

    /// Returns the squares from which a black pawn attacks this square.
    pub fn black_pawn_checks(self) -> (r: Bitboard)
        requires
            self.valid(),
        ensures
            r.value == BLACK_PAWN_CHECK_BITBOARDS[self.pos as int],
    {
        Bitboard::new(BLACK_PAWN_CHECK_BITBOARDS[self.pos as usize])
    }

    /// Returns the square one step in the given direction, or `None`
    /// when the step leaves the board.
    pub fn offset(self, direction: Direction) -> (r: Option<Self>)
        requires
            self.valid(),
        ensures
            r == self.spec_offset(direction),
            r matches Some(p) ==> p.valid(),
    {
        let file = self.file();
        let rank = self.rank();
        let next_file = match direction {
            Direction::N | Direction::S => Some(file),
            Direction::NE | Direction::E | Direction::SE => file.next(),
            Direction::SW | Direction::W | Direction::NW => file.prev(),
        };
        let next_rank = match direction {
            Direction::E | Direction::W => Some(rank),
            Direction::N | Direction::NE | Direction::NW => rank.next(),
            Direction::S | Direction::SE | Direction::SW => rank.prev(),
        };
        match (next_file, next_rank) {
            (Some(f), Some(r)) => Some(Self::new(f, r)),
            _ => None,
        }
    }

    /// Returns the square named by two characters of algebraic notation
    /// (a file letter then a rank digit), or an error for any other
    /// string.
    pub fn try_from(value: &str) -> (r: Result<Self, &'static str>)
        ensures
            r matches Ok(p) ==> {
                &&& value@.len() == 2
                &&& spec_file_from_char(value@[0]) matches Some(f)
                &&& spec_rank_from_char(value@[1]) matches Some(k)
                &&& p.pos == spec_file_value(f) * 8 + spec_rank_value(k)
            },
            r is Err ==> value@.len() != 2 || spec_file_from_char(value@[0]) is None
                || spec_rank_from_char(value@[1]) is None,
    {
        if value.unicode_len() != 2 {
            return Err("expected a string of length 2");
        }
        let fc = value.get_char(0);
        let rc = value.get_char(1);
        let Some(file) = File::from_char(fc) else {
            return Err("invalid file");
        };
        let Some(rank) = Rank::from_char(rc) else {
            return Err("invalid rank");
        };
        Ok(Self::new(file, rank))
    }

    /// Returns this square's name in algebraic notation: its file letter
    /// followed by its rank digit.
    pub fn to_string(self) -> (r: String)
        requires
            self.valid(),
        ensures
            r@ == seq![
                crate::file::spec_file_char(crate::file::spec_file_from_value(self.spec_file())),
                crate::rank::spec_rank_char(crate::rank::spec_rank_from_value(self.spec_rank())),
            ],
    {
        let mut r = String::from_str(self.file().as_str());
        r.append(self.rank().as_str());
        proof {
            assert(r@ =~= seq![
                crate::file::spec_file_char(crate::file::spec_file_from_value(self.spec_file())),
                crate::rank::spec_rank_char(crate::rank::spec_rank_from_value(self.spec_rank())),
            ]);
        }
        r
    }
}

} // verus!
