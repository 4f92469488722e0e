use vstd::prelude::*;

use crate::bitboard::Bitboard;
use crate::bitops::{bit64, lemma_bits, popcnt64};
use crate::piece::Piece;
use crate::player::Player;
use crate::pos::Pos;

verus! {

/// The piece placement of a position: one bitboard per (player, piece)
/// pair except kings, which are tracked as single squares because each
/// side always has exactly one king.
#[derive(Debug, Clone, Copy, PartialEq, Eq, Structural)]
pub struct Repr {
    pub white_pawns: Bitboard,
    pub black_pawns: Bitboard,
    pub white_knights: Bitboard,
    pub black_knights: Bitboard,
    pub white_bishops: Bitboard,
    pub black_bishops: Bitboard,
    pub white_rooks: Bitboard,
    pub black_rooks: Bitboard,
    pub white_queens: Bitboard,
    pub black_queens: Bitboard,
    pub white_king: Pos,
    pub black_king: Pos,
}

/// One when the condition holds, zero otherwise; used to count how many
/// entries of a `Repr` claim one square.
pub open spec fn b2i(b: bool) -> int {
    if b {
        1int
    } else {
        0int
    }
}

impl Repr {
    /// The occupant of square `i`, read from the first entry claiming
    /// it: the ten piece bitboards in a fixed order, then the two king
    /// squares.
    pub open spec fn spec_get(self, i: u64) -> Option<(Player, Piece)> {
        if bit64(self.white_pawns.value, i) {
            Some((Player::White, Piece::Pawn))
        } else if bit64(self.black_pawns.value, i) {
            Some((Player::Black, Piece::Pawn))
        } else if bit64(self.white_knights.value, i) {
            Some((Player::White, Piece::Knight))
        } else if bit64(self.black_knights.value, i) {
            Some((Player::Black, Piece::Knight))
        } else if bit64(self.white_bishops.value, i) {
            Some((Player::White, Piece::Bishop))
        } else if bit64(self.black_bishops.value, i) {
            Some((Player::Black, Piece::Bishop))
        } else if bit64(self.white_rooks.value, i) {
            Some((Player::White, Piece::Rook))
        } else if bit64(self.black_rooks.value, i) {
            Some((Player::Black, Piece::Rook))
        } else if bit64(self.white_queens.value, i) {
            Some((Player::White, Piece::Queen))
        } else if bit64(self.black_queens.value, i) {
            Some((Player::Black, Piece::Queen))
        } else if self.white_king.pos == i {
            Some((Player::White, Piece::King))
        } else if self.black_king.pos == i {
            Some((Player::Black, Piece::King))
        } else {
            None
        }
    }

    /// How many of the ten piece bitboards claim square `i`.
    pub open spec fn board_claims(self, i: u64) -> int {
        b2i(bit64(self.white_pawns.value, i)) + b2i(bit64(self.black_pawns.value, i)) + b2i(
            bit64(self.white_knights.value, i),
        ) + b2i(bit64(self.black_knights.value, i)) + b2i(bit64(self.white_bishops.value, i))
            + b2i(bit64(self.black_bishops.value, i)) + b2i(bit64(self.white_rooks.value, i))
            + b2i(bit64(self.black_rooks.value, i)) + b2i(bit64(self.white_queens.value, i))
            + b2i(bit64(self.black_queens.value, i))
    }

    /// How many entries of the placement, bitboards and king squares
    /// together, claim square `i`.
    pub open spec fn claim_count(self, i: u64) -> int {
        self.board_claims(i) + b2i(self.white_king.pos == i) + b2i(self.black_king.pos == i)
    }

    /// Well-formedness: both king squares are on the board and no square
    /// is claimed by more than one entry, so `spec_get` is the one
    /// occupant of each square.
    pub open spec fn wf(self) -> bool {
        &&& self.white_king.valid()
        &&& self.black_king.valid()
        &&& forall|i: u64| i < 64 ==> #[trigger] self.claim_count(i) <= 1
    }

    /// The weaker invariant preserved by speculative piece placement:
    /// the ten piece bitboards are pairwise disjoint (king squares may
    /// coincide with them).
    pub open spec fn boards_disjoint(self) -> bool {
        &&& self.white_king.valid()
        &&& self.black_king.valid()
        &&& forall|i: u64| i < 64 ==> #[trigger] self.board_claims(i) <= 1
    }

    /// The placement after clearing square `i` of every piece bitboard.
    /// King squares are untouched: kings cannot be removed.
    pub open spec fn spec_cleared(self, i: u64) -> Repr {
        Repr {
            white_pawns: Bitboard { value: self.white_pawns.value & !(1u64 << i) },
            black_pawns: Bitboard { value: self.black_pawns.value & !(1u64 << i) },
            white_knights: Bitboard { value: self.white_knights.value & !(1u64 << i) },
            black_knights: Bitboard { value: self.black_knights.value & !(1u64 << i) },
            white_bishops: Bitboard { value: self.white_bishops.value & !(1u64 << i) },
            black_bishops: Bitboard { value: self.black_bishops.value & !(1u64 << i) },
            white_rooks: Bitboard { value: self.white_rooks.value & !(1u64 << i) },
            black_rooks: Bitboard { value: self.black_rooks.value & !(1u64 << i) },
            white_queens: Bitboard { value: self.white_queens.value & !(1u64 << i) },
            black_queens: Bitboard { value: self.black_queens.value & !(1u64 << i) },
            ..self
        }
    }

    /// The placement after writing `piece` to square `i`: the square is
    /// cleared of every bitboard entry, then the new occupant is
    /// recorded, either as a bit or as a king square.
    pub open spec fn spec_set(self, i: u64, piece: Option<(Player, Piece)>) -> Repr {
        let c = self.spec_cleared(i);
        match piece {
            None => c,
            Some((Player::White, Piece::Pawn)) => Repr {
                white_pawns: Bitboard { value: c.white_pawns.value | (1u64 << i) },
                ..c
            },
            Some((Player::Black, Piece::Pawn)) => Repr {
                black_pawns: Bitboard { value: c.black_pawns.value | (1u64 << i) },
                ..c
            },
            Some((Player::White, Piece::Knight)) => Repr {
                white_knights: Bitboard { value: c.white_knights.value | (1u64 << i) },
                ..c
            },
            Some((Player::Black, Piece::Knight)) => Repr {
                black_knights: Bitboard { value: c.black_knights.value | (1u64 << i) },
                ..c
            },
            Some((Player::White, Piece::Bishop)) => Repr {
                white_bishops: Bitboard { value: c.white_bishops.value | (1u64 << i) },
                ..c
            },
            Some((Player::Black, Piece::Bishop)) => Repr {
                black_bishops: Bitboard { value: c.black_bishops.value | (1u64 << i) },
                ..c
            },
            Some((Player::White, Piece::Rook)) => Repr {
                white_rooks: Bitboard { value: c.white_rooks.value | (1u64 << i) },
                ..c
            },
            Some((Player::Black, Piece::Rook)) => Repr {
                black_rooks: Bitboard { value: c.black_rooks.value | (1u64 << i) },
                ..c
            },
            Some((Player::White, Piece::Queen)) => Repr {
                white_queens: Bitboard { value: c.white_queens.value | (1u64 << i) },
                ..c
            },
            Some((Player::Black, Piece::Queen)) => Repr {
                black_queens: Bitboard { value: c.black_queens.value | (1u64 << i) },
                ..c
            },
            Some((Player::White, Piece::King)) => Repr { white_king: Pos { pos: i as u8 }, ..c },
            Some((Player::Black, Piece::King)) => Repr { black_king: Pos { pos: i as u8 }, ..c },
        }
    }

    /// The set of all squares occupied by the given player, the king
    /// square included.
    pub open spec fn spec_player_pieces(self, player: Player) -> u64 {
        match player {
            Player::White => self.white_pawns.value | self.white_knights.value
                | self.white_bishops.value | self.white_rooks.value | self.white_queens.value | (
            1u64 << (self.white_king.pos as u64)),
            Player::Black => self.black_pawns.value | self.black_knights.value
                | self.black_bishops.value | self.black_rooks.value | self.black_queens.value | (
            1u64 << (self.black_king.pos as u64)),
        }
    }

    /// The given player's diagonal sliders: bishops and queens.
    pub open spec fn spec_diag_sliders(self, player: Player) -> u64 {
        match player {
            Player::White => self.white_bishops.value | self.white_queens.value,
            Player::Black => self.black_bishops.value | self.black_queens.value,
        }
    }

    /// The given player's orthogonal sliders: rooks and queens.
    pub open spec fn spec_orth_sliders(self, player: Player) -> u64 {
        match player {
            Player::White => self.white_rooks.value | self.white_queens.value,
            Player::Black => self.black_rooks.value | self.black_queens.value,
        }
    }

    /// The given player's king square.
    pub open spec fn spec_king_pos(self, player: Player) -> Pos {
        match player {
            Player::White => self.white_king,
            Player::Black => self.black_king,
        }
    }

    /// The total number of pieces on the board: the bits of the ten
    /// piece bitboards plus the two kings.
    pub open spec fn piece_total(self) -> int {
        (popcnt64(self.white_pawns.value) + popcnt64(self.black_pawns.value) + popcnt64(
            self.white_knights.value,
        ) + popcnt64(self.black_knights.value) + popcnt64(self.white_bishops.value) + popcnt64(
            self.black_bishops.value,
        ) + popcnt64(self.white_rooks.value) + popcnt64(self.black_rooks.value) + popcnt64(
            self.white_queens.value,
        ) + popcnt64(self.black_queens.value) + 2nat) as int
    }

    /// Returns the placement of a board with no pieces. The king squares
    /// default to E1 and E8 but claim nothing until every other entry is
    /// clear of them.
    pub fn empty() -> (r: Self)
        ensures
            r == spec_empty_repr(),
            r.wf(),
    {
        let r = Self {
            white_pawns: Bitboard::empty(),
            black_pawns: Bitboard::empty(),
            white_knights: Bitboard::empty(),
            black_knights: Bitboard::empty(),
            white_bishops: Bitboard::empty(),
            black_bishops: Bitboard::empty(),
            white_rooks: Bitboard::empty(),
            black_rooks: Bitboard::empty(),
            white_queens: Bitboard::empty(),
            black_queens: Bitboard::empty(),
            white_king: Pos::from_value(32),
            black_king: Pos::from_value(39),
        };
        proof {
            lemma_bits();
            assert(forall|i: u64| i < 64 ==> #[trigger] r.claim_count(i) <= 1);
        }
        r
    }

    /// Returns the occupant of the square with the given index, which
    /// must be below 64.
    pub fn get(&self, index: usize) -> (r: Option<(Player, Piece)>)
        requires
            index < 64,
        ensures
            r == self.spec_get(index as u64),
    {
        let pos = Pos::from_value(index as u8);
        if self.white_pawns.get(pos) {
            return Some((Player::White, Piece::Pawn));
        }
        if self.black_pawns.get(pos) {
            return Some((Player::Black, Piece::Pawn));
        }
        if self.white_knights.get(pos) {
            return Some((Player::White, Piece::Knight));
        }
        if self.black_knights.get(pos) {
            return Some((Player::Black, Piece::Knight));
        }
        if self.white_bishops.get(pos) {
            return Some((Player::White, Piece::Bishop));
        }
        if self.black_bishops.get(pos) {
            return Some((Player::Black, Piece::Bishop));
        }
        if self.white_rooks.get(pos) {
            return Some((Player::White, Piece::Rook));
        }
        if self.black_rooks.get(pos) {
            return Some((Player::Black, Piece::Rook));
        }
        if self.white_queens.get(pos) {
            return Some((Player::White, Piece::Queen));
        }
        if self.black_queens.get(pos) {
            return Some((Player::Black, Piece::Queen));
        }
        if self.white_king == pos {
            return Some((Player::White, Piece::King));
        }
        if self.black_king == pos {
            return Some((Player::Black, Piece::King));
        }
        None
    }

    /// Writes the given occupant, or emptiness, to the square with the
    /// given index. A king is recorded by moving its king square; the
    /// old occupant's entry is cleared first.
    pub fn set(&mut self, index: usize, piece: Option<(Player, Piece)>)
        requires
            index < 64,
        ensures
            *final(self) == old(self).spec_set(index as u64, piece),
    {
        let pos = Pos::from_value(index as u8);
        self.white_pawns.clear(pos);
        self.black_pawns.clear(pos);
        self.white_knights.clear(pos);
        self.black_knights.clear(pos);
        self.white_bishops.clear(pos);
        self.black_bishops.clear(pos);
        self.white_rooks.clear(pos);
        self.black_rooks.clear(pos);
        self.white_queens.clear(pos);
        self.black_queens.clear(pos);
        match piece {
            None => (),
            Some((Player::White, Piece::Pawn)) => self.white_pawns.set(pos),
            Some((Player::Black, Piece::Pawn)) => self.black_pawns.set(pos),
            Some((Player::White, Piece::Knight)) => self.white_knights.set(pos),
            Some((Player::Black, Piece::Knight)) => self.black_knights.set(pos),
            Some((Player::White, Piece::Bishop)) => self.white_bishops.set(pos),
            Some((Player::Black, Piece::Bishop)) => self.black_bishops.set(pos),
            Some((Player::White, Piece::Rook)) => self.white_rooks.set(pos),
            Some((Player::Black, Piece::Rook)) => self.black_rooks.set(pos),
            Some((Player::White, Piece::Queen)) => self.white_queens.set(pos),
            Some((Player::Black, Piece::Queen)) => self.black_queens.set(pos),
            Some((Player::White, Piece::King)) => self.white_king = pos,
            Some((Player::Black, Piece::King)) => self.black_king = pos,
        }
    }

    /// Returns the set of all squares occupied by the given player.
    pub fn player_pieces(&self, player: Player) -> (r: Bitboard)
        requires
            self.white_king.valid(),
            self.black_king.valid(),
        ensures
            r.value == self.spec_player_pieces(player),
    {
        match player {
            Player::White => self.white_pawns.or(self.white_knights).or(self.white_bishops).or(
                self.white_rooks,
            ).or(self.white_queens).or(Bitboard::single_bit(self.white_king)),
            Player::Black => self.black_pawns.or(self.black_knights).or(self.black_bishops).or(
                self.black_rooks,
            ).or(self.black_queens).or(Bitboard::single_bit(self.black_king)),
        }
    }

    /// Returns the given player's diagonal sliders: bishops and queens.
    pub fn player_pieces_checks_1(&self, player: Player) -> (r: Bitboard)
        ensures
            r.value == self.spec_diag_sliders(player),
    {
        match player {
            Player::White => self.white_bishops.or(self.white_queens),
            Player::Black => self.black_bishops.or(self.black_queens),
        }
    }

    /// Returns the given player's orthogonal sliders: rooks and queens.
    pub fn player_pieces_checks_2(&self, player: Player) -> (r: Bitboard)
        ensures
            r.value == self.spec_orth_sliders(player),
    {
        match player {
            Player::White => self.white_rooks.or(self.white_queens),
            Player::Black => self.black_rooks.or(self.black_queens),
        }
    }

    /// Returns the given player's king square.
    pub fn king_pos(&self, colour: Player) -> (r: Pos)
        ensures
            r == self.spec_king_pos(colour),
    {
        match colour {
            Player::White => self.white_king,
            Player::Black => self.black_king,
        }
    }

    /// Returns a mutable reference to the bitboard of the given player
    /// and piece kind. Kings have no bitboard, so the piece must not be
    /// a king.
    pub fn mut_bitboard(&mut self, pp: (Player, Piece)) -> (r: &mut Bitboard)
        requires
            !(pp.1 is King),
        ensures
            pp == (Player::White, Piece::Pawn) ==> *r == old(self).white_pawns && *final(self)
                == (Repr { white_pawns: *final(r), ..*old(self) }),
            pp == (Player::Black, Piece::Pawn) ==> *r == old(self).black_pawns && *final(self)
                == (Repr { black_pawns: *final(r), ..*old(self) }),
            pp == (Player::White, Piece::Knight) ==> *r == old(self).white_knights && *final(self)
                == (Repr { white_knights: *final(r), ..*old(self) }),
            pp == (Player::Black, Piece::Knight) ==> *r == old(self).black_knights && *final(self)
                == (Repr { black_knights: *final(r), ..*old(self) }),
            pp == (Player::White, Piece::Bishop) ==> *r == old(self).white_bishops && *final(self)
                == (Repr { white_bishops: *final(r), ..*old(self) }),
            pp == (Player::Black, Piece::Bishop) ==> *r == old(self).black_bishops && *final(self)
                == (Repr { black_bishops: *final(r), ..*old(self) }),
            pp == (Player::White, Piece::Rook) ==> *r == old(self).white_rooks && *final(self)
                == (Repr { white_rooks: *final(r), ..*old(self) }),
            pp == (Player::Black, Piece::Rook) ==> *r == old(self).black_rooks && *final(self)
                == (Repr { black_rooks: *final(r), ..*old(self) }),
            pp == (Player::White, Piece::Queen) ==> *r == old(self).white_queens && *final(self)
                == (Repr { white_queens: *final(r), ..*old(self) }),
            pp == (Player::Black, Piece::Queen) ==> *r == old(self).black_queens && *final(self)
                == (Repr { black_queens: *final(r), ..*old(self) }),
    {
        match pp {
            (Player::White, Piece::Pawn) => &mut self.white_pawns,
            (Player::Black, Piece::Pawn) => &mut self.black_pawns,
            (Player::White, Piece::Knight) => &mut self.white_knights,
            (Player::Black, Piece::Knight) => &mut self.black_knights,
            (Player::White, Piece::Bishop) => &mut self.white_bishops,
            (Player::Black, Piece::Bishop) => &mut self.black_bishops,
            (Player::White, Piece::Rook) => &mut self.white_rooks,
            (Player::Black, Piece::Rook) => &mut self.black_rooks,
            (Player::White, Piece::Queen) => &mut self.white_queens,
            (Player::Black, Piece::Queen) => &mut self.black_queens,
            // ruled out by the precondition; the contract promises
            // nothing for kings
            (_, Piece::King) => &mut self.white_pawns,
        }
    }
}

/// Full well-formedness implies the weaker bitboard disjointness.
pub proof fn lemma_wf_disjoint(r: Repr)
    requires
        r.wf(),
    ensures
        r.boards_disjoint(),
{
    assert forall|i: u64| i < 64 implies #[trigger] r.board_claims(i) <= 1 by {
        assert(r.claim_count(i) <= 1);
    }
}

/// On a well-formed placement, a player's occupancy set holds exactly
/// the squares whose occupant belongs to that player.
pub proof fn lemma_player_pieces_occ(r: Repr, player: Player)
    requires
        r.wf(),
    ensures
        forall|i: u64|
            i < 64 ==> (#[trigger] bit64(r.spec_player_pieces(player), i) <==> (r.spec_get(
                i,
            ) matches Some((pl, pc)) && pl == player)),
{
    lemma_bits();
    assert forall|i: u64| i < 64 implies (#[trigger] bit64(r.spec_player_pieces(player), i)
        <==> (r.spec_get(i) matches Some((pl, pc)) && pl == player)) by {
        assert(r.claim_count(i) <= 1);
    }
}

/// The placement of a board with no pieces: every bitboard empty and
/// the king squares at their E1 and E8 defaults.
pub open spec fn spec_empty_repr() -> Repr {
    Repr {
        white_pawns: Bitboard { value: 0 },
        black_pawns: Bitboard { value: 0 },
        white_knights: Bitboard { value: 0 },
        black_knights: Bitboard { value: 0 },
        white_bishops: Bitboard { value: 0 },
        black_bishops: Bitboard { value: 0 },
        white_rooks: Bitboard { value: 0 },
        black_rooks: Bitboard { value: 0 },
        white_queens: Bitboard { value: 0 },
        black_queens: Bitboard { value: 0 },
        white_king: Pos { pos: 32 },
        black_king: Pos { pos: 39 },
    }
}

} // verus!
