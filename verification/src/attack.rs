//! Pseudo-legal destination sets per piece, and the attack test that
//! decides whether a square is in check.

use vstd::prelude::*;

use crate::bitboard::Bitboard;
use crate::bitops::{bit64, lemma_bit_or_split, lemma_bit_single_eq, lemma_bits, sh_bpawn_attacks, sh_knight, sh_wpawn_attacks};
use crate::board::Board;
use crate::consts::{ADJACENT_BITBOARDS, BISHOP_MOVE_BITBOARDS, KNIGHT_BITBOARDS,
    ROOK_MOVE_BITBOARDS};
use crate::direction::Direction;
use crate::piece::Piece;
use crate::player::Player;
use crate::pos::Pos;

verus! {

/// How many steps can still be taken from `p` in direction `d` before
/// leaving the board; the measure that makes ray walks terminate.
pub open spec fn dir_space(p: Pos, d: Direction) -> int {
    let f = p.pos / 8;
    let r = p.pos % 8;
    let file_room = if d.file_delta() > 0 {
        7 - f
    } else if d.file_delta() < 0 {
        f as int
    } else {
        7
    };
    let rank_room = if d.rank_delta() > 0 {
        7 - r
    } else if d.rank_delta() < 0 {
        r as int
    } else {
        7
    };
    if file_room <= rank_room {
        file_room
    } else {
        rank_room
    }
}

/// Stepping in a direction decomposes arithmetically: the file index
/// moves by the file delta and the rank index by the rank delta, and
/// the space left in that direction shrinks by one.
pub proof fn lemma_offset(p: Pos, d: Direction)
    requires
        p.valid(),
    ensures
        p.spec_offset(d) matches Some(n) ==> {
            &&& n.valid()
            &&& n.pos / 8 == p.pos / 8 + d.file_delta()
            &&& n.pos % 8 == p.pos % 8 + d.rank_delta()
            &&& dir_space(n, d) == dir_space(p, d) - 1
            &&& dir_space(p, d) >= 1
            &&& n.pos != p.pos
        },
{
    if p.spec_offset(d) is Some {
        let f = p.pos / 8 + d.file_delta();
        let r = p.pos % 8 + d.rank_delta();
        let n = p.spec_offset(d)->Some_0;
        assert(n.pos == f * 8 + r);
        assert(n.pos / 8 == f && n.pos % 8 == r) by (nonlinear_arith)
            requires
                0 <= f < 8,
                0 <= r < 8,
                n.pos == f * 8 + r,
        ;
    }
}

/// The squares a slider on `p` owned by `player` may move to along
/// direction `d`: each empty square in turn, and the first occupied
/// square if an opponent stands on it.
pub open spec fn spec_ray(b: Board, player: Player, p: Pos, d: Direction) -> u64
    decreases dir_space(p, d),
{
    if !p.valid() {
        0u64
    } else {
        match p.spec_offset(d) {
            None => 0u64,
            Some(n) => if dir_space(n, d) >= dir_space(p, d) {
                0u64  // cannot happen; keeps the recursion well-founded
            } else {
                match b.occ(n.pos as u64) {
                    Some((tp, tpc)) => if tp == player {
                        0u64
                    } else {
                        1u64 << (n.pos as u64)
                    },
                    None => (1u64 << (n.pos as u64)) | spec_ray(b, player, n, d),
                }
            },
        }
    }
}

/// The union of a slider's rays in the four diagonal directions.
pub open spec fn spec_diag_rays(b: Board, player: Player, p: Pos) -> u64 {
    spec_ray(b, player, p, Direction::NE) | spec_ray(b, player, p, Direction::SE) | spec_ray(
        b,
        player,
        p,
        Direction::SW,
    ) | spec_ray(b, player, p, Direction::NW)
}

/// The union of a slider's rays in the four orthogonal directions.
pub open spec fn spec_orth_rays(b: Board, player: Player, p: Pos) -> u64 {
    spec_ray(b, player, p, Direction::N) | spec_ray(b, player, p, Direction::E) | spec_ray(
        b,
        player,
        p,
        Direction::S,
    ) | spec_ray(b, player, p, Direction::W)
}

/// The capture-shaped pawn targets of the pawn on `p` in direction `d`:
/// the diagonal step when it lands on an opposing piece.
pub open spec fn spec_pawn_capture(b: Board, player: Player, p: Pos, d: Direction) -> u64 {
    match p.spec_offset(d) {
        None => 0u64,
        Some(t) => match b.occ(t.pos as u64) {
            Some((tp, tpc)) => if tp == player {
                0u64
            } else {
                1u64 << (t.pos as u64)
            },
            None => 0u64,
        },
    }
}

/// The forward pawn targets of the pawn on `p`: one step ahead when
/// empty, and two steps from the starting rank when both are empty.
pub open spec fn spec_pawn_forward(b: Board, player: Player, p: Pos) -> u64 {
    let fwd = if player is White {
        Direction::N
    } else {
        Direction::S
    };
    let start_rank = if player is White {
        1u8
    } else {
        6u8
    };
    match p.spec_offset(fwd) {
        None => 0u64,
        Some(f1) => if b.occ(f1.pos as u64) is None {
            (1u64 << (f1.pos as u64)) | if p.pos % 8 == start_rank {
                match f1.spec_offset(fwd) {
                    None => 0u64,
                    Some(f2) => if b.occ(f2.pos as u64) is None {
                        1u64 << (f2.pos as u64)
                    } else {
                        0u64
                    },
                }
            } else {
                0u64
            }
        } else {
            0u64
        },
    }
}

/// The en-passant target of the pawn on `p`: the recorded en-passant
/// square when one diagonal step reaches it.
pub open spec fn spec_pawn_ep(player: Player, p: Pos, ep: Option<Pos>) -> u64 {
    let c1 = if player is White {
        Direction::NW
    } else {
        Direction::SW
    };
    let c2 = if player is White {
        Direction::NE
    } else {
        Direction::SE
    };
    match ep {
        None => 0u64,
        Some(e) => if p.spec_offset(c1) == Some(e) || p.spec_offset(c2) == Some(e) {
            1u64 << (e.pos as u64)
        } else {
            0u64
        },
    }
}

/// All pawn targets: forward advances, diagonal captures, and the
/// en-passant capture.
pub open spec fn spec_pawn_targets(b: Board, player: Player, p: Pos, ep: Option<Pos>) -> u64 {
    let c1 = if player is White {
        Direction::NW
    } else {
        Direction::SW
    };
    let c2 = if player is White {
        Direction::NE
    } else {
        Direction::SE
    };
    spec_pawn_forward(b, player, p) | spec_pawn_capture(b, player, p, c1) | spec_pawn_capture(
        b,
        player,
        p,
        c2,
    ) | spec_pawn_ep(player, p, ep)
}

/// The pseudo-legal destination squares of the piece on `p`, ignoring
/// check: pawn pushes and captures, knight jumps and king steps onto
/// squares free of own pieces, and slider rays. Empty squares have no
/// moves.
pub open spec fn spec_simple_moves(b: Board, p: Pos, ep: Option<Pos>) -> u64 {
    match b.occ(p.pos as u64) {
        None => 0u64,
        Some((player, piece)) => match piece {
            Piece::Pawn => spec_pawn_targets(b, player, p, ep),
            Piece::Knight => !b.repr.spec_player_pieces(player) & KNIGHT_BITBOARDS[p.pos as int],
            Piece::Bishop => spec_diag_rays(b, player, p),
            Piece::Rook => spec_orth_rays(b, player, p),
            Piece::Queen => spec_diag_rays(b, player, p) | spec_orth_rays(b, player, p),
            Piece::King => !b.repr.spec_player_pieces(player) & ADJACENT_BITBOARDS[p.pos as int],
        },
    }
}

/// What a square's enumeration requires of a board: the placement's
/// bitboards are disjoint, a piece stands on the square, and a pawn
/// there has a forward square.
pub open spec fn can_enumerate(b: Board, p: Pos) -> bool {
    &&& p.valid()
    &&& b.repr.boards_disjoint()
    &&& match b.occ(p.pos as u64) {
        Some((player, piece)) => piece is Pawn ==> (player is White ==> p.pos % 8 != 7) && (
        player is Black ==> p.pos % 8 != 0),
        None => false,
    }
}

/// The attackers of `ksq` that need no ray: enemy knights a jump away,
/// enemy pawns a diagonal step away, and the enemy king adjacent.
pub open spec fn spec_near_attacks(b: Board, ksq: Pos) -> bool {
    let x = match b.current_player {
        Player::White => sh_knight(b.repr.black_knights.value) | sh_bpawn_attacks(
            b.repr.black_pawns.value,
        ) | ADJACENT_BITBOARDS[b.repr.black_king.pos as int],
        Player::Black => sh_knight(b.repr.white_knights.value) | sh_wpawn_attacks(
            b.repr.white_pawns.value,
        ) | ADJACENT_BITBOARDS[b.repr.white_king.pos as int],
    };
    bit64(x, ksq.pos as u64)
}

/// The candidate enemy sliders that might attack `ksq`: bishops and
/// queens sharing a diagonal with it, rooks and queens sharing its rank
/// or file.
pub open spec fn spec_slider_candidates(b: Board, ksq: Pos) -> u64 {
    let enemy = b.current_player.spec_flip();
    (BISHOP_MOVE_BITBOARDS[ksq.pos as int] & b.repr.spec_diag_sliders(enemy)) | (
    ROOK_MOVE_BITBOARDS[ksq.pos as int] & b.repr.spec_orth_sliders(enemy))
}

/// Whether `ksq` is attacked by the player not to move: a near attack,
/// or a candidate slider whose ray reaches the square.
pub open spec fn spec_square_in_check(b: Board, ksq: Pos) -> bool {
    spec_near_attacks(b, ksq) || exists|j: u64|
        j < 64 && #[trigger] bit64(spec_slider_candidates(b, ksq), j) && bit64(
            spec_simple_moves(b, Pos { pos: j as u8 }, None),
            ksq.pos as u64,
        )
}

/// Whether the player to move is in check.
pub open spec fn spec_in_check(b: Board) -> bool {
    spec_square_in_check(b, b.repr.spec_king_pos(b.current_player))
}

/// A finished ray walk: the gathered squares are exactly the ray from
/// `start`.
pub open spec fn ray_done(b: Board, player: Player, start: Pos, d: Direction, acc: u64) -> bool {
    forall|j: u64|
        j < 64 ==> (#[trigger] bit64(acc, j) <==> bit64(spec_ray(b, player, start, d), j))
}

impl Board {
    /// Returns the squares one slider ray reaches: each empty square
    /// in the given direction, and the first opposing piece met.
    fn ray_targets(&self, player: Player, start: Pos, d: Direction) -> (res: Bitboard)
        requires
            start.valid(),
        ensures
            ray_done(*self, player, start, d, res.value),
        decreases dir_space(start, d),
    {
        proof {
            lemma_bits();
            lemma_offset(start, d);
        }
        let next = match start.offset(d) {
            Some(n) => n,
            None => {
                return Bitboard::empty();
            },
        };
        match self.getp(next) {
            Some((target_player, _)) => {
                if target_player == player {
                    // own piece blocks the ray
                    Bitboard::empty()
                } else {
                    // opposing piece: the capture square ends the ray
                    let r = Bitboard::single_bit(next);
                    proof {
                        lemma_bit_single_eq(r.value, next.pos as u64);
                    }
                    r
                }
            },
            None => {
                let mut r = self.ray_targets(player, next, d);
                let ghost r0 = r;
                r.set(next);
                proof {
                    assert(spec_ray(*self, player, start, d) == ((1u64 << (next.pos as u64))
                        | spec_ray(*self, player, next, d)));
                    lemma_bit_or_split(
                        spec_ray(*self, player, start, d),
                        1u64 << (next.pos as u64),
                        spec_ray(*self, player, next, d),
                    );
                    lemma_bit_single_eq(1u64 << (next.pos as u64), next.pos as u64);
                    assert forall|j: u64| j < 64 implies (#[trigger] bit64(r.value, j) <==> bit64(
                        spec_ray(*self, player, start, d),
                        j,
                    )) by {
                        assert(bit64(r.value, j) <==> bit64(r0.value, j) || j == next.pos);
                        assert(bit64(r0.value, j) <==> bit64(spec_ray(*self, player, next, d), j));
                    }
                }
                r
            },
        }
    }

    /// Returns all pseudo-legal destination squares of the piece on the
    /// given square, ignoring check. The en-passant target, if any, is
    /// taken from the caller so that speculative boards can suppress it.
    pub fn simple_piece_moves(&self, pos: Pos, en_passant_target: Option<Pos>) -> (r: Bitboard)
        requires
            can_enumerate(*self, pos),
            en_passant_target matches Some(e) ==> e.valid(),
        ensures
            forall|j: u64|
                j < 64 ==> (#[trigger] bit64(r.value, j) <==> bit64(
                    spec_simple_moves(*self, pos, en_passant_target),
                    j,
                )),
    {
        proof {
            lemma_bits();
        }
        let (player, piece) = match self.getp(pos) {
            Some(pp) => pp,
            None => {
                // excluded by the precondition
                return Bitboard::empty();
            },
        };
        match piece {
            Piece::Pawn => {
                let mut result = Bitboard::empty();
                let (direction, starting_rank, capture_1, capture_2) = match player {
                    Player::White => (Direction::N, 1u8, Direction::NW, Direction::NE),
                    Player::Black => (Direction::S, 6u8, Direction::SW, Direction::SE),
                };
                proof {
                    lemma_offset(pos, direction);
                }
                let forward_one = match pos.offset(direction) {
                    Some(f1) => f1,
                    None => {
                        // excluded by the precondition: every pawn has a
                        // forward square
                        return result;
                    },
                };
                if self.getp(forward_one).is_none() {
                    result.set(forward_one);
                    if pos.value() % 8 == starting_rank {
                        proof {
                            lemma_offset(forward_one, direction);
                        }
                        if let Some(forward_two) = forward_one.offset(direction) {
                            if self.getp(forward_two).is_none() {
                                result.set(forward_two);
                            }
                        }
                    }
                }
                if let Some(target_pos) = pos.offset(capture_1) {
                    if let Some((target_player, _)) = self.getp(target_pos) {
                        if target_player != player {
                            result.set(target_pos);
                        }
                    }
                }
                if let Some(target_pos) = pos.offset(capture_2) {
                    if let Some((target_player, _)) = self.getp(target_pos) {
                        if target_player != player {
                            result.set(target_pos);
                        }
                    }
                }
                if let Some(ep) = en_passant_target {
                    let hit_1 = match pos.offset(capture_1) {
                        Some(t) => t.value() == ep.value(),
                        None => false,
                    };
                    let hit_2 = match pos.offset(capture_2) {
                        Some(t) => t.value() == ep.value(),
                        None => false,
                    };
                    if hit_1 || hit_2 {
                        result.set(ep);
                    }
                }
                result
            },
            Piece::Knight => self.repr.player_pieces(player).complement().and(pos.knight_moves()),
            Piece::King => self.repr.player_pieces(player).complement().and(pos.adjacent()),
            Piece::Bishop => {
                let mut result = Bitboard::empty();
                result = result.or(self.ray_targets(player, pos, Direction::NE));
                result = result.or(self.ray_targets(player, pos, Direction::SE));
                result = result.or(self.ray_targets(player, pos, Direction::SW));
                result = result.or(self.ray_targets(player, pos, Direction::NW));
                result
            },
            Piece::Rook => {
                let mut result = Bitboard::empty();
                result = result.or(self.ray_targets(player, pos, Direction::N));
                result = result.or(self.ray_targets(player, pos, Direction::E));
                result = result.or(self.ray_targets(player, pos, Direction::S));
                result = result.or(self.ray_targets(player, pos, Direction::W));
                result
            },
            Piece::Queen => {
                let mut result = Bitboard::empty();
                result = result.or(self.ray_targets(player, pos, Direction::NE));
                result = result.or(self.ray_targets(player, pos, Direction::SE));
                result = result.or(self.ray_targets(player, pos, Direction::SW));
                result = result.or(self.ray_targets(player, pos, Direction::NW));
                result = result.or(self.ray_targets(player, pos, Direction::N));
                result = result.or(self.ray_targets(player, pos, Direction::E));
                result = result.or(self.ray_targets(player, pos, Direction::S));
                result = result.or(self.ray_targets(player, pos, Direction::W));
                result
            },
        }
    }

    /// Returns whether the given square is attacked by the player not
    /// to move: first the precomputed knight, pawn, and king masks,
    /// then a ray confirmation for each candidate slider.
    pub fn square_in_check(&self, king_pos: Pos) -> (r: bool)
        requires
            king_pos.valid(),
            self.repr.boards_disjoint(),
        ensures
            r == spec_square_in_check(*self, king_pos),
    {
        proof {
            lemma_bits();
        }
        let x = match self.current_player {
            Player::White => self.repr.black_knights.knight_shifts().or(
                self.repr.black_pawns.black_pawn_attack_shifts(),
            ).or(self.repr.king_pos(Player::Black).adjacent()),
            Player::Black => self.repr.white_knights.knight_shifts().or(
                self.repr.white_pawns.white_pawn_attack_shifts(),
            ).or(self.repr.king_pos(Player::White).adjacent()),
        };
        if !x.and(Bitboard::single_bit(king_pos)).is_zero() {
            return true;
        }
        let enemy = self.current_player.flip();
        let candidates = king_pos.bishop_moves().and(
            self.repr.player_pieces_checks_1(enemy),
        ).or(king_pos.rook_moves().and(self.repr.player_pieces_checks_2(enemy)));
        for i in 0..64u8
            invariant
                king_pos.valid(),
                self.repr.boards_disjoint(),
                candidates.value == spec_slider_candidates(*self, king_pos),
                !spec_near_attacks(*self, king_pos),
                forall|j: u64|
                    j < i && #[trigger] bit64(candidates.value, j) ==> !bit64(
                        spec_simple_moves(*self, Pos { pos: j as u8 }, None),
                        king_pos.pos as u64,
                    ),
        {
            proof {
                lemma_bits();
            }
            let p = Pos::from_value(i);
            if candidates.get(p) {
                proof {
                    assert(self.repr.board_claims(i as u64) <= 1);
                    assert(can_enumerate(*self, p));
                }
                if self.simple_piece_moves(p, None).get(king_pos) {
                    return true;
                }
            }
        }
        false
    }

    /// Returns whether the player to move is in check.
    pub fn in_check(&self) -> (r: bool)
        requires
            self.repr.boards_disjoint(),
        ensures
            r == spec_in_check(*self),
    {
        let king_pos = self.repr.king_pos(self.current_player);
        self.square_in_check(king_pos)
    }
}

/// The owner of the occupant of square `j`, disregarding which piece it
/// is: what a ray walk reads of a square.
pub open spec fn occ_owner(b: Board, j: u64) -> Option<Player> {
    match b.occ(j) {
        Some((pl, pc)) => Some(pl),
        None => None,
    }
}

/// Two positions whose squares agree on occupancy and owner give every
/// ray the same squares: a ray reads only blockers and their colours.
pub proof fn lemma_ray_congruent(b1: Board, b2: Board, player: Player, p: Pos, d: Direction)
    requires
        forall|j: u64| j < 64 ==> #[trigger] occ_owner(b1, j) == occ_owner(b2, j),
    ensures
        spec_ray(b1, player, p, d) == spec_ray(b2, player, p, d),
    decreases dir_space(p, d),
{
    if p.valid() {
        lemma_offset(p, d);
        match p.spec_offset(d) {
            None => {},
            Some(n) => {
                assert(occ_owner(b1, n.pos as u64) == occ_owner(b2, n.pos as u64));
                if dir_space(n, d) < dir_space(p, d) && b1.occ(n.pos as u64) is None {
                    lemma_ray_congruent(b1, b2, player, n, d);
                }
            },
        }
    }
}

/// Two positions with the same side to move, the same pieces for the
/// side not to move, and squares agreeing on occupancy and owner have
/// the same squares in check: the attack test reads nothing else.
pub proof fn lemma_check_congruent(b1: Board, b2: Board, k: Pos)
    requires
        b1.current_player == b2.current_player,
        b1.repr.spec_diag_sliders(b1.current_player.spec_flip()) == b2.repr.spec_diag_sliders(
            b1.current_player.spec_flip(),
        ),
        b1.repr.spec_orth_sliders(b1.current_player.spec_flip()) == b2.repr.spec_orth_sliders(
            b1.current_player.spec_flip(),
        ),
        (if b1.current_player is White {
            b1.repr.black_knights == b2.repr.black_knights && b1.repr.black_pawns
                == b2.repr.black_pawns && b1.repr.black_king == b2.repr.black_king
        } else {
            b1.repr.white_knights == b2.repr.white_knights && b1.repr.white_pawns
                == b2.repr.white_pawns && b1.repr.white_king == b2.repr.white_king
        }),
        b1.repr.boards_disjoint(),
        b2.repr.boards_disjoint(),
        forall|j: u64| j < 64 ==> #[trigger] occ_owner(b1, j) == occ_owner(b2, j),
    ensures
        spec_square_in_check(b1, k) == spec_square_in_check(b2, k),
{
    assert(spec_near_attacks(b1, k) == spec_near_attacks(b2, k));
    let cands = spec_slider_candidates(b1, k);
    assert(spec_slider_candidates(b2, k) == cands);
    lemma_bits();
    assert forall|j: u64| j < 64 && #[trigger] bit64(cands, j) implies bit64(
        spec_simple_moves(b1, Pos { pos: j as u8 }, None),
        k.pos as u64,
    ) == bit64(spec_simple_moves(b2, Pos { pos: j as u8 }, None), k.pos as u64) by {
        let pj = Pos { pos: j as u8 };
        let enemy = b1.current_player.spec_flip();
        assert(b1.repr.board_claims(j) <= 1);
        assert(b2.repr.board_claims(j) <= 1);
        assert(bit64(b1.repr.spec_diag_sliders(enemy), j) == bit64(
            b2.repr.spec_diag_sliders(enemy),
            j,
        ));
        assert(bit64(b1.repr.spec_orth_sliders(enemy), j) == bit64(
            b2.repr.spec_orth_sliders(enemy),
            j,
        ));
        assert(bit64(b1.repr.spec_diag_sliders(enemy), j) || bit64(
            b1.repr.spec_orth_sliders(enemy),
            j,
        ));
        assert(b1.occ(j) == b2.occ(j));
        lemma_ray_congruent(b1, b2, b1.occ(j)->Some_0.0, pj, Direction::NE);
        lemma_ray_congruent(b1, b2, b1.occ(j)->Some_0.0, pj, Direction::SE);
        lemma_ray_congruent(b1, b2, b1.occ(j)->Some_0.0, pj, Direction::SW);
        lemma_ray_congruent(b1, b2, b1.occ(j)->Some_0.0, pj, Direction::NW);
        lemma_ray_congruent(b1, b2, b1.occ(j)->Some_0.0, pj, Direction::N);
        lemma_ray_congruent(b1, b2, b1.occ(j)->Some_0.0, pj, Direction::E);
        lemma_ray_congruent(b1, b2, b1.occ(j)->Some_0.0, pj, Direction::S);
        lemma_ray_congruent(b1, b2, b1.occ(j)->Some_0.0, pj, Direction::W);
    }
}

} // verus!
