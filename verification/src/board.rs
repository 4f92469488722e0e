use vstd::prelude::*;

use crate::bitops::{bit64, lemma_bits, lemma_popcnt_below_bound, popcnt64};
use crate::piece::Piece;
use crate::player::Player;
use crate::pos::Pos;
use crate::repr::{spec_empty_repr, Repr};

verus! {

/// A full chess position: the piece placement, whose turn it is, the
/// en-passant target square if the last move was a double pawn advance,
/// and the four castling rights.
#[derive(Debug, Clone, Copy, PartialEq, Eq)]
pub struct Board {
    pub current_player: Player,
    pub en_passant_target: Option<Pos>,
    pub repr: Repr,
    pub white_kingside_castle: bool,
    pub white_queenside_castle: bool,
    pub black_kingside_castle: bool,
    pub black_queenside_castle: bool,
}

/// The piece of the initial position's back rank on the file with the
/// given index.
pub open spec fn spec_home_piece(f: u64) -> Piece {
    if f == 0 {
        Piece::Rook
    } else if f == 1 {
        Piece::Knight
    } else if f == 2 {
        Piece::Bishop
    } else if f == 3 {
        Piece::Queen
    } else if f == 4 {
        Piece::King
    } else if f == 5 {
        Piece::Bishop
    } else if f == 6 {
        Piece::Knight
    } else {
        Piece::Rook
    }
}

/// The occupant of each square in the initial position.
pub open spec fn spec_initial_occ(i: u64) -> Option<(Player, Piece)> {
    let f = i / 8;
    let r = i % 8;
    if r == 0 {
        Some((Player::White, spec_home_piece(f)))
    } else if r == 1 {
        Some((Player::White, Piece::Pawn))
    } else if r == 6 {
        Some((Player::Black, Piece::Pawn))
    } else if r == 7 {
        Some((Player::Black, spec_home_piece(f)))
    } else {
        None
    }
}

impl Board {
    /// The occupant of square `i`.
    pub open spec fn occ(self, i: u64) -> Option<(Player, Piece)> {
        self.repr.spec_get(i)
    }

    /// No pawn stands on a back rank: white pawns are below rank Eight
    /// and black pawns above rank One, so every pawn has a forward
    /// square.
    pub open spec fn pawns_ok(self) -> bool {
        &&& forall|i: u64|
            i < 64 && #[trigger] bit64(self.repr.white_pawns.value, i) ==> i % 8 != 7
        &&& forall|i: u64|
            i < 64 && #[trigger] bit64(self.repr.black_pawns.value, i) ==> i % 8 != 0
    }

    /// Well-formedness of a position: the placement claims each square
    /// at most once, every pawn has a forward square, and the recorded
    /// en-passant target is a real square.
    pub open spec fn wf(self) -> bool {
        &&& self.repr.wf()
        &&& self.pawns_ok()
        &&& match self.en_passant_target {
            Some(p) => p.valid(),
            None => true,
        }
    }

    /// A castling right is only set while the corresponding king still
    /// stands on its home square; it is cleared forever once the king
    /// moves.
    pub open spec fn castling_ok(self) -> bool {
        &&& (self.white_kingside_castle || self.white_queenside_castle) ==> self.repr.white_king
            == (Pos { pos: 32 })
        &&& (self.black_kingside_castle || self.black_queenside_castle) ==> self.repr.black_king
            == (Pos { pos: 39 })
    }

    /// Returns the board with no pieces, White to move, no en-passant
    /// target, and all four castling rights set.
    pub fn empty() -> (r: Self)
        ensures
            r.current_player is White,
            r.en_passant_target is None,
            r.repr == spec_empty_repr(),
            r.white_kingside_castle && r.white_queenside_castle && r.black_kingside_castle
                && r.black_queenside_castle,
            r.wf(),
    {
        let r = Self {
            current_player: Player::White,
            en_passant_target: None,
            repr: Repr::empty(),
            white_kingside_castle: true,
            white_queenside_castle: true,
            black_kingside_castle: true,
            black_queenside_castle: true,
        };
        proof {
            lemma_bits();
        }
        r
    }

    /// Returns the occupant of the square with the given index, which
    /// must be below 64.
    pub fn get(&self, index: usize) -> (r: Option<(Player, Piece)>)
        requires
            index < 64,
        ensures
            r == self.occ(index as u64),
    {
        self.repr.get(index)
    }

    /// Returns the occupant of the given square.
    pub fn getp(&self, pos: Pos) -> (r: Option<(Player, Piece)>)
        requires
            pos.valid(),
        ensures
            r == self.occ(pos.pos as u64),
    {
        self.repr.get(pos.value() as usize)
    }

    /// Writes the given occupant, or emptiness, to the square with the
    /// given index, which must be below 64.
    pub fn set(&mut self, index: usize, piece: Option<(Player, Piece)>)
        requires
            index < 64,
        ensures
            *final(self) == (Board {
                repr: old(self).repr.spec_set(index as u64, piece),
                ..*old(self)
            }),
    {
        self.repr.set(index, piece);
    }

    /// Writes the given occupant, or emptiness, to the given square.
    pub fn setp(&mut self, pos: Pos, piece: Option<(Player, Piece)>)
        requires
            pos.valid(),
        ensures
            *final(self) == (Board {
                repr: old(self).repr.spec_set(pos.pos as u64, piece),
                ..*old(self)
            }),
    {
        self.repr.set(pos.value() as usize, piece);
    }

    /// Returns the starting position of a chess game.
    #[verifier::rlimit(100)]
    pub fn initial_position() -> (r: Self)
        ensures
            r.current_player is White,
            r.en_passant_target is None,
            r.white_kingside_castle && r.white_queenside_castle && r.black_kingside_castle
                && r.black_queenside_castle,
            forall|i: u64| i < 64 ==> #[trigger] r.occ(i) == spec_initial_occ(i),
            r.wf(),
            r.castling_ok(),
    {
        let mut board = Self::empty();
        proof {
            lemma_bits();
        }
        for f in 0..8usize
            invariant
                board.current_player is White,
                board.en_passant_target is None,
                board.white_kingside_castle && board.white_queenside_castle
                    && board.black_kingside_castle && board.black_queenside_castle,
                board.repr.white_king == (Pos { pos: 32 }),
                board.repr.black_king == (Pos { pos: 39 }),
                forall|j: u64|
                    j < 64 && j / 8 < f ==> #[trigger] board.occ(j) == spec_initial_occ(j),
                forall|j: u64|
                    j < 64 && j / 8 >= f ==> #[trigger] board.occ(j) == (if j == 32 {
                        Some((Player::White, Piece::King))
                    } else if j == 39 {
                        Some((Player::Black, Piece::King))
                    } else {
                        None
                    }),
                forall|j: u64| j < 64 ==> #[trigger] board.repr.claim_count(j) <= 1,
                forall|j: u64|
                    j < 64 && #[trigger] bit64(board.repr.white_pawns.value, j) ==> j % 8 == 1,
                forall|j: u64|
                    j < 64 && #[trigger] bit64(board.repr.black_pawns.value, j) ==> j % 8 == 6,
        {
            let ghost b0 = board;
            let piece = home_piece(f as u8);
            board.set(f * 8, Some((Player::White, piece)));
            board.set(f * 8 + 1, Some((Player::White, Piece::Pawn)));
            board.set(f * 8 + 6, Some((Player::Black, Piece::Pawn)));
            board.set(f * 8 + 7, Some((Player::Black, piece)));
            proof {
                lemma_bits();
                assert forall|j: u64| j < 64 && j / 8 < f + 1 implies #[trigger] board.occ(j)
                    == spec_initial_occ(j) by {
                    assert(b0.repr.claim_count(j) <= 1);
                    if j / 8 < f {
                        assert(b0.occ(j) == spec_initial_occ(j));
                    } else {
                        assert(b0.occ(j) == (if j == 32 {
                            Some((Player::White, Piece::King))
                        } else if j == 39 {
                            Some((Player::Black, Piece::King))
                        } else {
                            None
                        }));
                    }
                }
                assert forall|j: u64| j < 64 && j / 8 >= f + 1 implies #[trigger] board.occ(j)
                    == (if j == 32 {
                    Some((Player::White, Piece::King))
                } else if j == 39 {
                    Some((Player::Black, Piece::King))
                } else {
                    None
                }) by {
                    assert(b0.occ(j) == (if j == 32 {
                        Some((Player::White, Piece::King))
                    } else if j == 39 {
                        Some((Player::Black, Piece::King))
                    } else {
                        None
                    }));
                }
                assert forall|j: u64| j < 64 implies #[trigger] board.repr.claim_count(j)
                    <= 1 by {
                    assert(b0.repr.claim_count(j) <= 1);
                }
                assert forall|j: u64|
                    j < 64 && #[trigger] bit64(board.repr.white_pawns.value, j) implies j % 8
                    == 1 by {
                    assert(bit64(b0.repr.white_pawns.value, j) ==> j % 8 == 1);
                }
                assert forall|j: u64|
                    j < 64 && #[trigger] bit64(board.repr.black_pawns.value, j) implies j % 8
                    == 6 by {
                    assert(bit64(b0.repr.black_pawns.value, j) ==> j % 8 == 6);
                }
            }
        }
        board
    }

    /// Returns the material balance of the position from White's point
    /// of view: one point per pawn, three per knight or bishop, five
    /// per rook, and nine per queen; kings count nothing.
    pub fn material_difference(&self) -> (r: i32)
        ensures
            r == spec_material(*self),
    {
        proof {
            lemma_popcnt_below_bound(self.repr.white_pawns.value, 64);
            lemma_popcnt_below_bound(self.repr.white_knights.value, 64);
            lemma_popcnt_below_bound(self.repr.white_bishops.value, 64);
            lemma_popcnt_below_bound(self.repr.white_rooks.value, 64);
            lemma_popcnt_below_bound(self.repr.white_queens.value, 64);
            lemma_popcnt_below_bound(self.repr.black_pawns.value, 64);
            lemma_popcnt_below_bound(self.repr.black_knights.value, 64);
            lemma_popcnt_below_bound(self.repr.black_bishops.value, 64);
            lemma_popcnt_below_bound(self.repr.black_rooks.value, 64);
            lemma_popcnt_below_bound(self.repr.black_queens.value, 64);
        }
        let white_value: i32 = self.repr.white_pawns.count() as i32
            + self.repr.white_knights.count() as i32 * 3 + self.repr.white_bishops.count() as i32
            * 3 + self.repr.white_rooks.count() as i32 * 5 + self.repr.white_queens.count() as i32
            * 9;
        let black_value: i32 = self.repr.black_pawns.count() as i32
            + self.repr.black_knights.count() as i32 * 3 + self.repr.black_bishops.count() as i32
            * 3 + self.repr.black_rooks.count() as i32 * 5 + self.repr.black_queens.count() as i32
            * 9;
        white_value - black_value
    }
}

/// The material balance of a position from White's point of view, in
/// pawn units: pawns one, knights and bishops three, rooks five,
/// queens nine, kings nothing.
pub open spec fn spec_material(b: Board) -> int {
    (popcnt64(b.repr.white_pawns.value) + 3 * popcnt64(b.repr.white_knights.value) + 3 * popcnt64(
        b.repr.white_bishops.value,
    ) + 5 * popcnt64(b.repr.white_rooks.value) + 9 * popcnt64(b.repr.white_queens.value)) as int - (
    popcnt64(b.repr.black_pawns.value) + 3 * popcnt64(b.repr.black_knights.value) + 3 * popcnt64(
        b.repr.black_bishops.value,
    ) + 5 * popcnt64(b.repr.black_rooks.value) + 9 * popcnt64(b.repr.black_queens.value)) as int
}

/// Returns the piece of the initial position's back rank on the file
/// with the given index, which must be below 8.
fn home_piece(f: u8) -> (r: Piece)
    requires
        f < 8,
    ensures
        r == spec_home_piece(f as u64),
{
    if f == 0 {
        Piece::Rook
    } else if f == 1 {
        Piece::Knight
    } else if f == 2 {
        Piece::Bishop
    } else if f == 3 {
        Piece::Queen
    } else if f == 4 {
        Piece::King
    } else if f == 5 {
        Piece::Bishop
    } else if f == 6 {
        Piece::Knight
    } else {
        Piece::Rook
    }
}

} // verus!
