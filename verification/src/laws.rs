//! Engine-wide laws, stated and proved over the same specification
//! functions the executable contracts use.

use vstd::prelude::*;

use crate::apply::{can_apply, spec_apply, spec_back_dir, spec_double_step};
use crate::attack::{lemma_check_congruent, occ_owner, spec_square_in_check};
use crate::bitops::{bit64, lemma_bits, lemma_clear_absent};
use crate::movegen::spec_preview;
use crate::player::Player;
use crate::board::Board;
use crate::mov::Move;
use crate::movegen::{spec_moves_at, spec_moves_at_below, spec_moves_below, spec_rejected};
use crate::piece::Piece;
use crate::pos::Pos;
use crate::search::spec_evaluate;

verus! {

/// Law: the material evaluation is invariant under which side is to
/// move, once sign-adjusted for perspective; flipping the side to move
/// negates the score.
pub proof fn lemma_evaluate_perspective(b: Board)
    ensures
        spec_evaluate(Board { current_player: b.current_player.spec_flip(), ..b })
            == -spec_evaluate(b),
{
}

/// Law: after applying a move, the en-passant target square is set if
/// and only if the move was a two-square pawn advance, and it is then
/// exactly the square the pawn passed over. Applying any following move
/// runs through the same rule, so the target survives for exactly one
/// reply.
pub proof fn lemma_en_passant_timing(b: Board, m: Move)
    requires
        can_apply(b, m),
    ensures
        spec_apply(b, m).en_passant_target is Some <==> (b.occ(m.from.pos as u64)->Some_0.1
            is Pawn && spec_double_step(m)),
        spec_apply(b, m).en_passant_target is Some ==> spec_apply(b, m).en_passant_target
            == m.to.spec_offset(spec_back_dir(b.occ(m.from.pos as u64)->Some_0.0)),
{
}

/// Every move contributed by one destination square originates on
/// `from` and passes the check filter for the piece that stands there.
proof fn lemma_moves_at_ok(b: Board, from: Pos, piece: Piece, n: int)
    requires
        n <= 64,
    ensures
        forall|k: int|
            0 <= k < spec_moves_at_below(b, from, piece, n).len() ==> {
                let m = #[trigger] spec_moves_at_below(b, from, piece, n)[k];
                m.from == from && m.to.valid() && !spec_rejected(b, from, m.to, piece)
            },
    decreases n,
{
    if n > 0 {
        lemma_moves_at_ok(b, from, piece, n - 1);
        let prev = spec_moves_at_below(b, from, piece, n - 1);
        let block = spec_moves_at(b, from, piece, (n - 1) as u64);
        assert forall|k: int|
            0 <= k < spec_moves_at_below(b, from, piece, n).len() implies {
            let m = #[trigger] spec_moves_at_below(b, from, piece, n)[k];
            m.from == from && m.to.valid() && !spec_rejected(b, from, m.to, piece)
        } by {
            if k < prev.len() {
                assert(spec_moves_at_below(b, from, piece, n)[k] == prev[k]);
            } else {
                assert(spec_moves_at_below(b, from, piece, n)[k] == block[k - prev.len()]);
            }
        }
    }
}

/// Every non-castling generated move originates on a square of the
/// player to move and passes the check filter for its piece.
proof fn lemma_moves_below_ok(b: Board, n: int)
    requires
        n <= 64,
    ensures
        forall|k: int|
            0 <= k < spec_moves_below(b, n).len() ==> {
                let m = #[trigger] spec_moves_below(b, n)[k];
                &&& m.from.valid()
                &&& m.to.valid()
                &&& b.occ(m.from.pos as u64) matches Some((pl, pc)) && pl == b.current_player
                    && !spec_rejected(b, m.from, m.to, pc)
            },
    decreases n,
{
    if n > 0 {
        lemma_moves_below_ok(b, n - 1);
        let from = Pos { pos: (n - 1) as u8 };
        match b.occ(from.pos as u64) {
            Some((pl, pc)) => {
                if pl == b.current_player {
                    lemma_moves_at_ok(b, from, pc, 64);
                }
            },
            None => {},
        }
    }
}

/// Law: the legal-move generator cannot produce a move that leaves the
/// mover's own king in check. For every non-castling generated move,
/// the board with the piece lifted onto its destination (and, for an
/// en-passant capture, the passed pawn removed) does not have the
/// mover's king square attacked.
pub proof fn lemma_no_self_check(b: Board, k: int)
    requires
        b.wf(),
        0 <= k < spec_moves_below(b, 64).len(),
    ensures
        ({
            let m = spec_moves_below(b, 64)[k];
            !spec_rejected(b, m.from, m.to, b.occ(m.from.pos as u64)->Some_0.1)
        }),
{
    lemma_moves_below_ok(b, 64);
}

/// On the filter's speculative board and on the applied position (seen
/// with the mover still to move), the opponent owns the same pieces and
/// every square has the same occupancy and owner: the piece moved is
/// the mover's, an en-passant capture removes only the opposing pawn,
/// and a promotion changes only the mover's piece kind.
#[verifier::rlimit(100)]
#[verifier::spinoff_prover]
proof fn lemma_preview_applied_agree(b: Board, m: Move)
    requires
        b.wf(),
        can_apply(b, m),
        b.occ(m.from.pos as u64) matches Some((pl, pc)) && pl == b.current_player,
        !(b.occ(m.from.pos as u64)->Some_0.1 is King && m.from.spec_file() == 4 && (
        m.to.spec_file() == 6 || m.to.spec_file() == 2)),
    ensures
        ({
            let piece = b.occ(m.from.pos as u64)->Some_0.1;
            let pv = spec_preview(b, m.from, m.to, piece);
            let fap = Board { current_player: b.current_player, ..spec_apply(b, m) };
            let enemy = b.current_player.spec_flip();
            &&& fap.repr.spec_diag_sliders(enemy) == pv.repr.spec_diag_sliders(enemy)
            &&& fap.repr.spec_orth_sliders(enemy) == pv.repr.spec_orth_sliders(enemy)
            &&& (if b.current_player is White {
                pv.repr.black_knights == fap.repr.black_knights && pv.repr.black_pawns
                    == fap.repr.black_pawns && pv.repr.black_king == fap.repr.black_king
            } else {
                pv.repr.white_knights == fap.repr.white_knights && pv.repr.white_pawns
                    == fap.repr.white_pawns && pv.repr.white_king == fap.repr.white_king
            })
            &&& pv.repr.boards_disjoint()
            &&& fap.repr.boards_disjoint()
            &&& forall|j: u64| j < 64 ==> #[trigger] occ_owner(pv, j) == occ_owner(fap, j)
        }),
{
    lemma_bits();
    let mover = b.current_player;
    let piece = b.occ(m.from.pos as u64)->Some_0.1;
    let pv = spec_preview(b, m.from, m.to, piece);
    let fap = Board { current_player: mover, ..spec_apply(b, m) };
    let f = m.from.pos as u64;
    let t = m.to.pos as u64;
    assert(b.repr.claim_count(f) <= 1);
    assert(b.repr.claim_count(t) <= 1);
    if mover is White {
        lemma_clear_absent(b.repr.black_pawns.value, f);
        lemma_clear_absent(b.repr.black_knights.value, f);
        lemma_clear_absent(b.repr.black_bishops.value, f);
        lemma_clear_absent(b.repr.black_rooks.value, f);
        lemma_clear_absent(b.repr.black_queens.value, f);
    } else {
        lemma_clear_absent(b.repr.white_pawns.value, f);
        lemma_clear_absent(b.repr.white_knights.value, f);
        lemma_clear_absent(b.repr.white_bishops.value, f);
        lemma_clear_absent(b.repr.white_rooks.value, f);
        lemma_clear_absent(b.repr.white_queens.value, f);
    }
    if piece is Pawn && b.en_passant_target == Some(m.to) {
        let cp = m.to.spec_offset(spec_back_dir(mover))->Some_0;
        let c = cp.pos as u64;
        assert(b.repr.claim_count(c) <= 1);
        if mover is White {
            lemma_clear_absent(b.repr.black_knights.value & !(1u64 << t), c);
            lemma_clear_absent(b.repr.black_bishops.value & !(1u64 << t), c);
            lemma_clear_absent(b.repr.black_rooks.value & !(1u64 << t), c);
            lemma_clear_absent(b.repr.black_queens.value & !(1u64 << t), c);
        } else {
            lemma_clear_absent(b.repr.white_knights.value & !(1u64 << t), c);
            lemma_clear_absent(b.repr.white_bishops.value & !(1u64 << t), c);
            lemma_clear_absent(b.repr.white_rooks.value & !(1u64 << t), c);
            lemma_clear_absent(b.repr.white_queens.value & !(1u64 << t), c);
        }
    }
    assert forall|j: u64| j < 64 implies #[trigger] pv.repr.board_claims(j) <= 1 by {
        assert(b.repr.claim_count(j) <= 1);
    }
    assert forall|j: u64| j < 64 implies #[trigger] fap.repr.board_claims(j) <= 1 by {
        assert(b.repr.claim_count(j) <= 1);
    }
    assert forall|j: u64| j < 64 implies #[trigger] occ_owner(pv, j) == occ_owner(fap, j) by {
        assert(b.repr.claim_count(j) <= 1);
    }
}

/// Law (the applied form of the generator's king safety): applying a
/// generated non-castling move leaves the mover's king square
/// unattacked by the opponent on the resulting position. The
/// castling-shaped king moves are excluded: their legality test speaks
/// of the king's start, transit, and destination squares instead.
#[verifier::rlimit(100)]
#[verifier::spinoff_prover]
pub proof fn lemma_applied_no_self_check(b: Board, k: int)
    requires
        b.wf(),
        0 <= k < spec_moves_below(b, 64).len(),
        can_apply(b, spec_moves_below(b, 64)[k]),
        !({
            let m = spec_moves_below(b, 64)[k];
            b.occ(m.from.pos as u64)->Some_0.1 is King && m.from.spec_file() == 4 && (
            m.to.spec_file() == 6 || m.to.spec_file() == 2)
        }),
    ensures
        ({
            let m = spec_moves_below(b, 64)[k];
            let mover = b.current_player;
            let applied = spec_apply(b, m);
            !spec_square_in_check(
                Board { current_player: mover, ..applied },
                applied.repr.spec_king_pos(mover),
            )
        }),
{
    lemma_moves_below_ok(b, 64);
    let m = spec_moves_below(b, 64)[k];
    let mover = b.current_player;
    let piece = b.occ(m.from.pos as u64)->Some_0.1;
    let pv = spec_preview(b, m.from, m.to, piece);
    let ap = spec_apply(b, m);
    let fap = Board { current_player: mover, ..ap };
    let ck = if piece is King {
        m.to
    } else {
        b.repr.spec_king_pos(mover)
    };
    assert(!spec_square_in_check(pv, ck));
    assert(ap.repr.spec_king_pos(mover) == ck);
    lemma_preview_applied_agree(b, m);
    lemma_check_congruent(pv, fap, ck);
}

} // verus!
