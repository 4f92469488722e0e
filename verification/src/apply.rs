//! Move application: the one place the position changes. The move is
//! assumed legal-shaped (`can_apply`); the result is described exactly
//! by `spec_apply`.

use vstd::prelude::*;

use crate::bitboard::Bitboard;
use crate::bitops::{bit64, lemma_bits, lemma_popcnt_clear, lemma_popcnt_set};
use crate::board::Board;
use crate::direction::Direction;
use crate::mov::Move;
use crate::piece::Piece;
use crate::player::Player;
use crate::pos::Pos;
use crate::repr::Repr;

verus! {

/// The bitboard of the given player and piece kind; zero for kings,
/// which have no bitboard.
pub open spec fn spec_board_get(r: Repr, player: Player, piece: Piece) -> u64 {
    match (player, piece) {
        (Player::White, Piece::Pawn) => r.white_pawns.value,
        (Player::Black, Piece::Pawn) => r.black_pawns.value,
        (Player::White, Piece::Knight) => r.white_knights.value,
        (Player::Black, Piece::Knight) => r.black_knights.value,
        (Player::White, Piece::Bishop) => r.white_bishops.value,
        (Player::Black, Piece::Bishop) => r.black_bishops.value,
        (Player::White, Piece::Rook) => r.white_rooks.value,
        (Player::Black, Piece::Rook) => r.black_rooks.value,
        (Player::White, Piece::Queen) => r.white_queens.value,
        (Player::Black, Piece::Queen) => r.black_queens.value,
        (_, Piece::King) => 0u64,
    }
}

/// The placement with the bitboard of the given player and piece kind
/// replaced; unchanged for kings.
pub open spec fn spec_board_with(r: Repr, player: Player, piece: Piece, v: u64) -> Repr {
    match (player, piece) {
        (Player::White, Piece::Pawn) => Repr { white_pawns: Bitboard { value: v }, ..r },
        (Player::Black, Piece::Pawn) => Repr { black_pawns: Bitboard { value: v }, ..r },
        (Player::White, Piece::Knight) => Repr { white_knights: Bitboard { value: v }, ..r },
        (Player::Black, Piece::Knight) => Repr { black_knights: Bitboard { value: v }, ..r },
        (Player::White, Piece::Bishop) => Repr { white_bishops: Bitboard { value: v }, ..r },
        (Player::Black, Piece::Bishop) => Repr { black_bishops: Bitboard { value: v }, ..r },
        (Player::White, Piece::Rook) => Repr { white_rooks: Bitboard { value: v }, ..r },
        (Player::Black, Piece::Rook) => Repr { black_rooks: Bitboard { value: v }, ..r },
        (Player::White, Piece::Queen) => Repr { white_queens: Bitboard { value: v }, ..r },
        (Player::Black, Piece::Queen) => Repr { black_queens: Bitboard { value: v }, ..r },
        (_, Piece::King) => r,
    }
}

/// The direction from a player's pawns' destination back towards their
/// origin.
pub open spec fn spec_back_dir(player: Player) -> Direction {
    match player {
        Player::White => Direction::S,
        Player::Black => Direction::N,
    }
}

/// Whether a move is a two-square pawn advance by square encoding: the
/// destination index differs from the origin by exactly two, which on
/// the `file * 8 + rank` encoding means two ranks on the same file.
pub open spec fn spec_double_step(m: Move) -> bool {
    m.to.pos as int - m.from.pos as int == 2 || m.from.pos as int - m.to.pos as int == 2
}

/// What applying a move requires of board and move so that application
/// cannot fail and preserves well-formedness: the origin holds a piece
/// of the player to move; the destination is a different square not
/// held by the mover or by any king; promotion appears exactly on pawn
/// moves to a far rank and names a piece a pawn may become; an
/// en-passant capture finds the opposing pawn behind the target; a
/// two-square pawn move has a square behind the destination; and a
/// castling-shaped king move finds the rook on its corner and an empty
/// square for it.
pub open spec fn can_apply(b: Board, m: Move) -> bool {
    &&& m.valid()
    &&& m.from != m.to
    &&& match b.occ(m.from.pos as u64) {
        None => false,
        Some((player, piece)) => {
            &&& player == b.current_player
            &&& match b.occ(m.to.pos as u64) {
                None => true,
                Some((tp, tpc)) => tp != player && !(tpc is King),
            }
            &&& ((piece is Pawn && (m.to.pos % 8 == 7 || m.to.pos % 8 == 0)) <==> m.promotion
                is Some)
            &&& match m.promotion {
                None => true,
                Some(pr) => pr is Knight || pr is Bishop || pr is Rook || pr is Queen,
            }
            &&& (piece is Pawn && b.en_passant_target == Some(m.to)) ==> match m.to.spec_offset(
                spec_back_dir(player),
            ) {
                None => false,
                Some(cp) => b.occ(cp.pos as u64) == Some((player.spec_flip(), Piece::Pawn)),
            }
            &&& (piece is Pawn && spec_double_step(m)) ==> m.to.spec_offset(
                spec_back_dir(player),
            ) is Some
            &&& (piece is King && m.from.spec_file() == 4 && m.to.spec_file() == 6) ==> {
                &&& m.to.spec_rank() == m.from.spec_rank()
                &&& b.occ((56 + m.from.spec_rank()) as u64) == Some((player, Piece::Rook))
                &&& b.occ((40 + m.from.spec_rank()) as u64) is None
            }
            &&& (piece is King && m.from.spec_file() == 4 && m.to.spec_file() == 2) ==> {
                &&& m.to.spec_rank() == m.from.spec_rank()
                &&& b.occ((m.from.spec_rank()) as u64) == Some((player, Piece::Rook))
                &&& b.occ((24 + m.from.spec_rank()) as u64) is None
            }
        },
    }
}

/// The position after a move: the destination is cleared, the piece is
/// moved (promoted if the move says so), an en-passant capture removes
/// the passed pawn, the en-passant target is set only by a two-square
/// pawn advance, a castling king move relocates its rook, the turn
/// passes, and castling rights are cleared forever when a king moves or
/// a rook leaves its corner.
pub open spec fn spec_apply(b: Board, m: Move) -> Board {
    match b.occ(m.from.pos as u64) {
        None => b,
        Some((player, piece)) => {
            let from = m.from.pos as u64;
            let to = m.to.pos as u64;
            let r1 = b.repr.spec_set(to, None);
            let r2 = if piece is King {
                match player {
                    Player::White => Repr { white_king: m.to, ..r1 },
                    Player::Black => Repr { black_king: m.to, ..r1 },
                }
            } else {
                let cleared = spec_board_with(
                    r1,
                    player,
                    piece,
                    spec_board_get(r1, player, piece) & !(1u64 << from),
                );
                match m.promotion {
                    None => spec_board_with(
                        cleared,
                        player,
                        piece,
                        spec_board_get(cleared, player, piece) | (1u64 << to),
                    ),
                    Some(promo) => spec_board_with(
                        cleared,
                        player,
                        promo,
                        spec_board_get(cleared, player, promo) | (1u64 << to),
                    ),
                }
            };
            let r3 = if piece is Pawn && b.en_passant_target == Some(m.to) {
                match m.to.spec_offset(spec_back_dir(player)) {
                    Some(cp) => Repr {
                        white_pawns: Bitboard {
                            value: r2.white_pawns.value & !(1u64 << (cp.pos as u64)),
                        },
                        black_pawns: Bitboard {
                            value: r2.black_pawns.value & !(1u64 << (cp.pos as u64)),
                        },
                        ..r2
                    },
                    None => r2,
                }
            } else {
                r2
            };
            let new_ep = if piece is Pawn && spec_double_step(m) {
                m.to.spec_offset(spec_back_dir(player))
            } else {
                None
            };
            let r4 = if piece is King && m.from.spec_file() == 4 && m.to.spec_file() == 6 {
                let rook_pos = (56 + m.from.spec_rank()) as u64;
                let rook_to = (40 + m.from.spec_rank()) as u64;
                spec_board_with(
                    r3,
                    player,
                    Piece::Rook,
                    (spec_board_get(r3, player, Piece::Rook) & !(1u64 << rook_pos)) | (1u64
                        << rook_to),
                )
            } else if piece is King && m.from.spec_file() == 4 && m.to.spec_file() == 2 {
                let rook_pos = m.from.spec_rank() as u64;
                let rook_to = (24 + m.from.spec_rank()) as u64;
                spec_board_with(
                    r3,
                    player,
                    Piece::Rook,
                    (spec_board_get(r3, player, Piece::Rook) & !(1u64 << rook_pos)) | (1u64
                        << rook_to),
                )
            } else {
                r3
            };
            Board {
                current_player: b.current_player.spec_flip(),
                en_passant_target: new_ep,
                repr: r4,
                white_kingside_castle: b.white_kingside_castle && !(player is White && piece
                    is King) && !(player is White && piece is Rook && m.from.pos == 56),
                white_queenside_castle: b.white_queenside_castle && !(player is White && piece
                    is King) && !(player is White && piece is Rook && m.from.pos == 0),
                black_kingside_castle: b.black_kingside_castle && !(player is Black && piece
                    is King) && !(player is Black && piece is Rook && m.from.pos == 63),
                black_queenside_castle: b.black_queenside_castle && !(player is Black && piece
                    is King) && !(player is Black && piece is Rook && m.from.pos == 7),
            }
        },
    }
}

impl Board {
    /// Applies a legal-shaped move to the position in place.
    #[verifier::rlimit(100)]
    #[verifier::spinoff_prover]
    pub fn apply_move(&mut self, mov: Move)
        requires
            old(self).wf(),
            can_apply(*old(self), mov),
        ensures
            *final(self) == spec_apply(*old(self), mov),
            final(self).wf(),
            old(self).castling_ok() ==> final(self).castling_ok(),
    {
        proof {
            lemma_bits();
        }
        let (player, piece) = match self.getp(mov.from) {
            Some(pp) => pp,
            None => (Player::White, Piece::Pawn),  // ruled out by the precondition
        };
        self.setp(mov.to, None);
        if matches!(piece, Piece::King) {
            match player {
                Player::White => self.repr.white_king = mov.to,
                Player::Black => self.repr.black_king = mov.to,
            }
        } else {
            let b = self.repr.mut_bitboard((player, piece));
            b.clear(mov.from);
            match mov.promotion {
                None => {
                    let b = self.repr.mut_bitboard((player, piece));
                    b.set(mov.to);
                },
                Some(promotion) => {
                    let pb = self.repr.mut_bitboard((player, promotion));
                    pb.set(mov.to);
                },
            }
        }
        let back_dir = match player {
            Player::White => Direction::S,
            Player::Black => Direction::N,
        };
        let is_ep_capture = matches!(piece, Piece::Pawn) && match self.en_passant_target {
            Some(ep) => ep.value() == mov.to.value(),
            None => false,
        };
        if is_ep_capture {
            let capture_pos = match mov.to.offset(back_dir) {
                Some(cp) => cp,
                None => mov.to,  // ruled out by the precondition
            };
            self.repr.black_pawns.clear(capture_pos);
            self.repr.white_pawns.clear(capture_pos);
        }
        let diff = if mov.to.value() >= mov.from.value() {
            mov.to.value() - mov.from.value()
        } else {
            mov.from.value() - mov.to.value()
        };
        if matches!(piece, Piece::Pawn) && diff == 2 {
            self.en_passant_target = mov.to.offset(back_dir);
        } else {
            self.en_passant_target = None;
        }
        if matches!(piece, Piece::King) {
            if mov.from.value() / 8 == 4 && mov.to.value() / 8 == 6 {
                let rook_pos = Pos::from_value(56 + mov.from.value() % 8);
                let rook_to = Pos::from_value(40 + mov.from.value() % 8);
                let b = self.repr.mut_bitboard((player, Piece::Rook));
                b.clear(rook_pos);
                let b2 = self.repr.mut_bitboard((player, Piece::Rook));
                b2.set(rook_to);
            } else if mov.from.value() / 8 == 4 && mov.to.value() / 8 == 2 {
                let rook_pos = Pos::from_value(mov.from.value() % 8);
                let rook_to = Pos::from_value(24 + mov.from.value() % 8);
                let b = self.repr.mut_bitboard((player, Piece::Rook));
                b.clear(rook_pos);
                let b2 = self.repr.mut_bitboard((player, Piece::Rook));
                b2.set(rook_to);
            }
        }
        self.current_player = self.current_player.flip();
        if matches!(player, Player::White) && matches!(piece, Piece::King) {
            self.white_kingside_castle = false;
            self.white_queenside_castle = false;
        } else if matches!(player, Player::Black) && matches!(piece, Piece::King) {
            self.black_kingside_castle = false;
            self.black_queenside_castle = false;
        } else if matches!(player, Player::White) && matches!(piece, Piece::Rook) {
            if mov.from.value() == 0 {
                self.white_queenside_castle = false;
            } else if mov.from.value() == 56 {
                self.white_kingside_castle = false;
            }
        } else if matches!(player, Player::Black) && matches!(piece, Piece::Rook) {
            if mov.from.value() == 7 {
                self.black_queenside_castle = false;
            } else if mov.from.value() == 63 {
                self.black_kingside_castle = false;
            }
        }
        proof {
            assert(*self =~= spec_apply(*old(self), mov));
            assert forall|j: u64| j < 64 implies #[trigger] self.repr.claim_count(j) <= 1 by {
                assert(old(self).repr.claim_count(j) <= 1);
            }
            assert forall|j: u64|
                j < 64 && #[trigger] bit64(self.repr.white_pawns.value, j) implies j % 8 != 7 by {
                assert(bit64(old(self).repr.white_pawns.value, j) ==> j % 8 != 7);
            }
            assert forall|j: u64|
                j < 64 && #[trigger] bit64(self.repr.black_pawns.value, j) implies j % 8 != 0 by {
                assert(bit64(old(self).repr.black_pawns.value, j) ==> j % 8 != 0);
            }
        }
    }
}

/// Clearing one square of every piece bitboard removes exactly as many
/// pieces as bitboards claimed it.
pub proof fn lemma_total_cleared(r: Repr, i: u64)
    requires
        i < 64,
    ensures
        r.spec_cleared(i).piece_total() == r.piece_total() - r.board_claims(i),
{
    lemma_popcnt_clear(r.white_pawns.value, i);
    lemma_popcnt_clear(r.black_pawns.value, i);
    lemma_popcnt_clear(r.white_knights.value, i);
    lemma_popcnt_clear(r.black_knights.value, i);
    lemma_popcnt_clear(r.white_bishops.value, i);
    lemma_popcnt_clear(r.black_bishops.value, i);
    lemma_popcnt_clear(r.white_rooks.value, i);
    lemma_popcnt_clear(r.black_rooks.value, i);
    lemma_popcnt_clear(r.white_queens.value, i);
    lemma_popcnt_clear(r.black_queens.value, i);
}

/// Applying a capture strictly lowers the number of pieces on the
/// board: the captured piece's bit is removed and never replaced.
pub proof fn lemma_apply_capture_total(b: Board, m: Move)
    requires
        b.wf(),
        can_apply(b, m),
        b.occ(m.to.pos as u64) is Some,
    ensures
        spec_apply(b, m).repr.piece_total() < b.repr.piece_total(),
{
    lemma_bits();
    let from = m.from.pos as u64;
    let to = m.to.pos as u64;
    let player = b.occ(from)->Some_0.0;
    let piece = b.occ(from)->Some_0.1;
    let r1 = b.repr.spec_set(to, None);
    lemma_total_cleared(b.repr, to);
    assert(b.repr.claim_count(to) <= 1);
    assert(b.repr.board_claims(to) == 1);
    assert(r1.piece_total() == b.repr.piece_total() - 1);
    let r2 = if piece is King {
        match player {
            Player::White => Repr { white_king: m.to, ..r1 },
            Player::Black => Repr { black_king: m.to, ..r1 },
        }
    } else {
        let cleared = spec_board_with(
            r1,
            player,
            piece,
            spec_board_get(r1, player, piece) & !(1u64 << from),
        );
        match m.promotion {
            None => spec_board_with(
                cleared,
                player,
                piece,
                spec_board_get(cleared, player, piece) | (1u64 << to),
            ),
            Some(promo) => spec_board_with(
                cleared,
                player,
                promo,
                spec_board_get(cleared, player, promo) | (1u64 << to),
            ),
        }
    };
    if piece is King {
        assert(r2.piece_total() == r1.piece_total());
    } else {
        let v = spec_board_get(r1, player, piece);
        assert(bit64(spec_board_get(b.repr, player, piece), from));
        assert(bit64(v, from));
        lemma_popcnt_clear(v, from);
        let w = v & !(1u64 << from);
        let cleared = spec_board_with(r1, player, piece, w);
        match m.promotion {
            None => {
                assert(!bit64(w, to));
                lemma_popcnt_set(w, to);
                assert(r2.piece_total() == r1.piece_total());
            },
            Some(promo) => {
                let pv = spec_board_get(cleared, player, promo);
                assert(!bit64(pv, to));
                lemma_popcnt_set(pv, to);
                assert(r2.piece_total() == r1.piece_total());
            },
        }
    }
    if piece is Pawn && b.en_passant_target == Some(m.to) {
        let cp = m.to.spec_offset(spec_back_dir(player))->Some_0;
        assert(cp.pos < 64);
        lemma_popcnt_clear(r2.white_pawns.value, cp.pos as u64);
        lemma_popcnt_clear(r2.black_pawns.value, cp.pos as u64);
        let r3 = Repr {
            white_pawns: Bitboard { value: r2.white_pawns.value & !(1u64 << (cp.pos as u64)) },
            black_pawns: Bitboard { value: r2.black_pawns.value & !(1u64 << (cp.pos as u64)) },
            ..r2
        };
        assert(r3.piece_total() <= r2.piece_total());
    }
    let r3 = spec_apply_r3(b, m, r2);
    assert(r3.piece_total() <= r2.piece_total());
    if piece is King && m.from.spec_file() == 4 && (m.to.spec_file() == 6 || m.to.spec_file()
        == 2) {
        let rook_pos = if m.to.spec_file() == 6 {
            (56 + m.from.spec_rank()) as u64
        } else {
            m.from.spec_rank() as u64
        };
        let rook_to = if m.to.spec_file() == 6 {
            (40 + m.from.spec_rank()) as u64
        } else {
            (24 + m.from.spec_rank()) as u64
        };
        let rv = spec_board_get(r3, player, Piece::Rook);
        assert(bit64(spec_board_get(b.repr, player, Piece::Rook), rook_pos));
        assert(bit64(rv, rook_pos));
        lemma_popcnt_clear(rv, rook_pos);
        assert(!bit64(rv & !(1u64 << rook_pos), rook_to));
        lemma_popcnt_set(rv & !(1u64 << rook_pos), rook_to);
        assert(spec_apply(b, m).repr.piece_total() == r3.piece_total());
    }
    assert(spec_apply(b, m).repr.piece_total() < b.repr.piece_total());
}

/// The placement reached after the en-passant step of `spec_apply`,
/// starting from the placement `r2` it had after the piece was moved.
pub open spec fn spec_apply_r3(b: Board, m: Move, r2: Repr) -> Repr {
    let player = b.occ(m.from.pos as u64)->Some_0.0;
    let piece = b.occ(m.from.pos as u64)->Some_0.1;
    if piece is Pawn && b.en_passant_target == Some(m.to) {
        match m.to.spec_offset(spec_back_dir(player)) {
            Some(cp) => Repr {
                white_pawns: Bitboard { value: r2.white_pawns.value & !(1u64 << (cp.pos as u64)) },
                black_pawns: Bitboard { value: r2.black_pawns.value & !(1u64 << (cp.pos as u64)) },
                ..r2
            },
            None => r2,
        }
    } else {
        r2
    }
}

impl Board {
    /// Returns whether the move can be applied to this position: the
    /// exact conditions of `can_apply`, decided at run time so that a
    /// caller holding an arbitrary move can screen it before applying.
    pub fn check_applyable(&self, m: Move) -> (r: bool)
        requires
            self.wf(),
        ensures
            r == can_apply(*self, m),
    {
        if m.from.value() >= 64 || m.to.value() >= 64 {
            return false;
        }
        if m.from.value() == m.to.value() {
            return false;
        }
        let (player, piece) = match self.getp(m.from) {
            Some(pp) => pp,
            None => {
                return false;
            },
        };
        if player != self.current_player {
            return false;
        }
        match self.getp(m.to) {
            Some((tp, tpc)) => {
                if tp == player || matches!(tpc, Piece::King) {
                    return false;
                }
            },
            None => {},
        }
        let promo_square = matches!(piece, Piece::Pawn) && (m.to.value() % 8 == 7 || m.to.value()
            % 8 == 0);
        if promo_square != m.promotion.is_some() {
            return false;
        }
        match m.promotion {
            Some(pr) => {
                if matches!(pr, Piece::Pawn) || matches!(pr, Piece::King) {
                    return false;
                }
            },
            None => {},
        }
        let back_dir = match player {
            Player::White => Direction::S,
            Player::Black => Direction::N,
        };
        let is_ep = matches!(piece, Piece::Pawn) && match self.en_passant_target {
            Some(ep) => ep.value() == m.to.value(),
            None => false,
        };
        if is_ep {
            match m.to.offset(back_dir) {
                None => {
                    return false;
                },
                Some(cp) => {
                    match self.getp(cp) {
                        Some((cpl, cpc)) => {
                            if cpl == player || !matches!(cpc, Piece::Pawn) {
                                return false;
                            }
                        },
                        None => {
                            return false;
                        },
                    }
                },
            }
        }
        let diff = if m.to.value() >= m.from.value() {
            m.to.value() - m.from.value()
        } else {
            m.from.value() - m.to.value()
        };
        if matches!(piece, Piece::Pawn) && diff == 2 && m.to.offset(back_dir).is_none() {
            return false;
        }
        if matches!(piece, Piece::King) && m.from.value() / 8 == 4 && m.to.value() / 8 == 6 {
            if m.to.value() % 8 != m.from.value() % 8 {
                return false;
            }
            let rank = m.from.value() % 8;
            match self.getp(Pos::from_value(56 + rank)) {
                Some((rp, rpc)) => {
                    if rp != player || !matches!(rpc, Piece::Rook) {
                        return false;
                    }
                },
                None => {
                    return false;
                },
            }
            if self.getp(Pos::from_value(40 + rank)).is_some() {
                return false;
            }
        }
        if matches!(piece, Piece::King) && m.from.value() / 8 == 4 && m.to.value() / 8 == 2 {
            if m.to.value() % 8 != m.from.value() % 8 {
                return false;
            }
            let rank = m.from.value() % 8;
            match self.getp(Pos::from_value(rank)) {
                Some((rp, rpc)) => {
                    if rp != player || !matches!(rpc, Piece::Rook) {
                        return false;
                    }
                },
                None => {
                    return false;
                },
            }
            if self.getp(Pos::from_value(24 + rank)).is_some() {
                return false;
            }
        }
        true
    }
}

} // verus!
