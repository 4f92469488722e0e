//! Game-tree search: negamax with alpha-beta pruning, a principal
//! variation strategy with null-window probes, and a capture-only
//! quiescence extension.

use vstd::prelude::*;

use crate::apply::{can_apply, lemma_apply_capture_total, spec_apply};
use crate::bitops::lemma_popcnt_below_bound;
use crate::board::{spec_material, Board};
use crate::mov::Move;
use crate::movegen::spec_all_moves;
use crate::player::Player;

verus! {

/// The static evaluation of a position from the perspective of the
/// player to move: the material balance, negated for Black.
pub open spec fn spec_evaluate(b: Board) -> int {
    match b.current_player {
        Player::White => spec_material(b),
        Player::Black => -spec_material(b),
    }
}

/// The material balance is bounded: no colour's weighted piece count
/// can exceed the value of 64 queens.
pub proof fn lemma_material_bounds(b: Board)
    ensures
        -1344 <= spec_material(b) <= 1344,
{
    lemma_popcnt_below_bound(b.repr.white_pawns.value, 64);
    lemma_popcnt_below_bound(b.repr.white_knights.value, 64);
    lemma_popcnt_below_bound(b.repr.white_bishops.value, 64);
    lemma_popcnt_below_bound(b.repr.white_rooks.value, 64);
    lemma_popcnt_below_bound(b.repr.white_queens.value, 64);
    lemma_popcnt_below_bound(b.repr.black_pawns.value, 64);
    lemma_popcnt_below_bound(b.repr.black_knights.value, 64);
    lemma_popcnt_below_bound(b.repr.black_bishops.value, 64);
    lemma_popcnt_below_bound(b.repr.black_rooks.value, 64);
    lemma_popcnt_below_bound(b.repr.black_queens.value, 64);
}

/// `v` forced into the closed interval from `lo` to `hi`.
pub open spec fn spec_clamp(v: int, lo: int, hi: int) -> int {
    if v <= lo {
        lo
    } else if v >= hi {
        hi
    } else {
        v
    }
}

/// The quiescence value of a position: the better of standing pat on
/// the static evaluation and the best capture, searched recursively.
pub open spec fn spec_quiesce_value(b: Board) -> int
    decreases b.repr.piece_total(), 1int, 0int,
{
    let best = spec_quiesce_best(b, spec_all_moves(b).len() as int);
    if spec_evaluate(b) >= best {
        spec_evaluate(b)
    } else {
        best
    }
}

/// The best quiescence score among the first `n` generated moves that
/// are applicable captures; a sentinel far below every reachable score
/// when none is.
pub open spec fn spec_quiesce_best(b: Board, n: int) -> int
    decreases b.repr.piece_total(), 0int, n,
{
    if n <= 0 {
        -100000
    } else {
        let m = spec_all_moves(b)[n - 1];
        let rest = spec_quiesce_best(b, n - 1);
        if can_apply(b, m) && b.occ(m.to.pos as u64) is Some && spec_apply(
            b,
            m,
        ).repr.piece_total() < b.repr.piece_total() {
            let v = -spec_quiesce_value(spec_apply(b, m));
            if v >= rest {
                v
            } else {
                rest
            }
        } else {
            rest
        }
    }
}

/// The negamax value of a position at a depth: at the horizon the
/// quiescence value (or the raw evaluation when quiescence is off);
/// above it the best negated child value over the applicable moves,
/// with the sentinel when there are none.
pub open spec fn spec_negamax(b: Board, depth: int, quiescence: bool) -> int
    decreases depth, 1int, 0int,
{
    if depth <= 0 {
        if quiescence {
            spec_quiesce_value(b)
        } else {
            spec_evaluate(b)
        }
    } else {
        spec_negamax_best(b, depth, quiescence, spec_all_moves(b).len() as int)
    }
}

/// The best negamax score among the first `n` generated moves that are
/// applicable; the sentinel when none is.
pub open spec fn spec_negamax_best(b: Board, depth: int, quiescence: bool, n: int) -> int
    decreases depth, 0int, n,
{
    if n <= 0 || depth <= 0 {
        -100000
    } else {
        let m = spec_all_moves(b)[n - 1];
        let rest = spec_negamax_best(b, depth, quiescence, n - 1);
        if can_apply(b, m) {
            let v = -spec_negamax(spec_apply(b, m), depth - 1, quiescence);
            if v >= rest {
                v
            } else {
                rest
            }
        } else {
            rest
        }
    }
}

/// Considering more moves never lowers the best quiescence score.
proof fn lemma_quiesce_best_mono(b: Board, n1: int, n2: int)
    requires
        n1 <= n2,
    ensures
        spec_quiesce_best(b, n1) <= spec_quiesce_best(b, n2),
    decreases n2 - n1,
{
    if n1 < n2 {
        lemma_quiesce_best_mono(b, n1, n2 - 1);
    }
}

/// Considering more moves never lowers the best negamax score.
proof fn lemma_negamax_best_mono(b: Board, depth: int, q: bool, n1: int, n2: int)
    requires
        n1 <= n2,
    ensures
        spec_negamax_best(b, depth, q, n1) <= spec_negamax_best(b, depth, q, n2),
    decreases n2 - n1,
{
    if n1 < n2 {
        lemma_negamax_best_mono(b, depth, q, n1, n2 - 1);
    }
}

/// Returns the static evaluation of the position for the player to
/// move.
fn evaluate(board: &Board) -> (r: i32)
    ensures
        r == spec_evaluate(*board),
        -1344 <= r <= 1344,
{
    proof {
        lemma_material_bounds(*board);
    }
    let diff = board.material_difference();
    match board.current_player {
        Player::White => diff,
        Player::Black => -diff,
    }
}

/// Capture-only search at the horizon: the static evaluation stands as
/// a lower bound (the side to move need not capture), and each capture
/// is explored recursively within the alpha-beta window. The result is
/// exactly the quiescence value, clamped to the window.
#[verifier::rlimit(100)]
#[verifier::spinoff_prover]
fn quiesce(board: &Board, alpha: i32, beta: i32) -> (r: i32)
    requires
        board.wf(),
        -10000 <= alpha < beta <= 10000,
    ensures
        alpha <= r <= beta,
        r == spec_clamp(spec_quiesce_value(*board), alpha as int, beta as int),
    decreases board.repr.piece_total(), 2int,
{
    let eval = evaluate(board);
    if eval >= beta {
        proof {
            assert(spec_quiesce_value(*board) >= spec_evaluate(*board));
        }
        return beta;
    }
    let mut lower = alpha;
    if lower < eval {
        lower = eval;
    }
    let moves = board.all_moves();
    let mut idx: usize = 0;
    while idx < moves.len()
        invariant
            board.wf(),
            alpha <= lower < beta <= 10000,
            -10000 <= alpha,
            moves@ == spec_all_moves(*board),
            idx <= moves@.len(),
            eval == spec_evaluate(*board),
            eval < beta,
            spec_quiesce_best(*board, idx as int) < beta,
            lower == spec_clamp(
                if eval >= spec_quiesce_best(*board, idx as int) {
                    eval as int
                } else {
                    spec_quiesce_best(*board, idx as int)
                },
                alpha as int,
                beta as int,
            ),
        decreases moves.len() - idx,
    {
        let m = moves[idx];
        idx = idx + 1;
        if board.check_applyable(m) {
            if m.is_capture(board) {
                let mut new_board = *board;
                new_board.apply_move(m);
                proof {
                    lemma_apply_capture_total(*board, m);
                }
                let score = -quiesce(&new_board, -beta, -lower);
                proof {
                    assert(score == spec_clamp(
                        -spec_quiesce_value(new_board),
                        lower as int,
                        beta as int,
                    ));
                }
                if score >= beta {
                    proof {
                        assert(-spec_quiesce_value(new_board) >= beta);
                        assert(spec_quiesce_best(*board, idx as int) >= beta);
                        lemma_quiesce_best_mono(*board, idx as int, moves@.len() as int);
                        assert(spec_quiesce_value(*board) >= beta);
                    }
                    return beta;
                }
                if score > lower {
                    lower = score;
                }
            }
        }
    }
    lower
}

/// Null-window search: decides whether the position's negamax value
/// reaches `beta`, returning `beta` exactly when it does and `beta - 1`
/// otherwise; at the horizon with quiescence disabled it returns the
/// raw evaluation instead.
#[verifier::rlimit(100)]
#[verifier::spinoff_prover]
fn zw_search(board: &Board, beta: i32, depth: usize, enable_quiescence: bool) -> (r: i32)
    requires
        board.wf(),
        -9999 <= beta <= 10000,
    ensures
        -10000 <= r <= 10000,
        depth >= 1 || enable_quiescence ==> r as int == (if spec_negamax(
            *board,
            depth as int,
            enable_quiescence,
        ) >= beta {
            beta as int
        } else {
            beta - 1
        }),
        depth == 0 && !enable_quiescence ==> r == spec_evaluate(*board),
    decreases depth, 1int,
{
    if depth == 0 {
        if enable_quiescence {
            return quiesce(board, beta - 1, beta);
        } else {
            return evaluate(board);
        }
    }
    let mut result = beta - 1;
    let moves = board.all_moves();
    let mut idx: usize = 0;
    while idx < moves.len()
        invariant
            board.wf(),
            -9999 <= beta <= 10000,
            result == beta - 1,
            depth >= 1,
            moves@ == spec_all_moves(*board),
            idx <= moves@.len(),
            spec_negamax_best(*board, depth as int, enable_quiescence, idx as int) < beta,
        decreases moves.len() - idx,
    {
        let m = moves[idx];
        idx = idx + 1;
        if board.check_applyable(m) {
            let mut new_board = *board;
            new_board.apply_move(m);
            let ghost vchild = -spec_negamax(new_board, depth as int - 1, enable_quiescence);
            let score = -zw_search(&new_board, 1 - beta, depth - 1, enable_quiescence);
            proof {
                assert(score >= beta <==> vchild >= beta);
                assert(spec_negamax_best(*board, depth as int, enable_quiescence, idx as int)
                    == (if vchild >= spec_negamax_best(
                    *board,
                    depth as int,
                    enable_quiescence,
                    idx as int - 1,
                ) {
                    vchild
                } else {
                    spec_negamax_best(*board, depth as int, enable_quiescence, idx as int - 1)
                }));
            }
            if score >= beta {
                proof {
                    lemma_negamax_best_mono(
                        *board,
                        depth as int,
                        enable_quiescence,
                        idx as int,
                        moves@.len() as int,
                    );
                }
                return beta;
            }
        }
    }
    result
}

/// Principal-variation search: the first move is searched with the full
/// window; later moves are probed with a null window and re-searched
/// only when the probe suggests they beat the current best. With
/// quiescence on, the result is exactly the negamax value clamped to
/// the window; a horizon node returns the clamped quiescence value, and
/// a node without legal moves returns `alpha` unchanged.
#[verifier::rlimit(100)]
#[verifier::spinoff_prover]
fn pv_search(board: &Board, alpha: i32, beta: i32, depth: usize, enable_quiescence: bool) -> (r:
    i32)
    requires
        board.wf(),
        -10000 <= alpha < beta <= 10000,
    ensures
        alpha <= r <= beta,
        depth == 0 ==> r as int == spec_clamp(
            spec_quiesce_value(*board),
            alpha as int,
            beta as int,
        ),
        depth >= 1 && spec_all_moves(*board).len() == 0 ==> r == alpha,
        depth >= 1 && enable_quiescence ==> r as int == spec_clamp(
            spec_negamax(*board, depth as int, true),
            alpha as int,
            beta as int,
        ),
    decreases depth, 2int,
{
    if depth == 0 {
        return quiesce(board, alpha, beta);
    }
    let mut lower = alpha;
    let mut search_pv = true;
    let moves = board.all_moves();
    let mut idx: usize = 0;
    while idx < moves.len()
        invariant
            board.wf(),
            alpha <= lower < beta <= 10000,
            -10000 <= alpha,
            depth >= 1,
            moves@ == spec_all_moves(*board),
            idx <= moves@.len(),
            moves@.len() == 0 ==> lower == alpha,
            enable_quiescence ==> spec_negamax_best(*board, depth as int, true, idx as int)
                < beta,
            enable_quiescence ==> lower as int == spec_clamp(
                spec_negamax_best(*board, depth as int, true, idx as int),
                alpha as int,
                beta as int,
            ),
        decreases moves.len() - idx,
    {
        let m = moves[idx];
        idx = idx + 1;
        if board.check_applyable(m) {
            let mut new_board = *board;
            new_board.apply_move(m);
            let ghost vchild = -spec_negamax(new_board, depth as int - 1, true);
            let score: i32 = if search_pv {
                -pv_search(&new_board, -beta, -lower, depth - 1, enable_quiescence)
            } else {
                let s = -zw_search(&new_board, -lower, depth - 1, enable_quiescence);
                if s > lower {
                    -pv_search(&new_board, -beta, -lower, depth - 1, enable_quiescence)
                } else {
                    s
                }
            };
            proof {
                if enable_quiescence {
                    assert(score as int == spec_clamp(vchild, lower as int, beta as int) || (
                    score == lower && vchild <= lower));
                    assert(spec_negamax_best(*board, depth as int, true, idx as int) == (
                    if vchild >= spec_negamax_best(*board, depth as int, true, idx as int - 1) {
                        vchild
                    } else {
                        spec_negamax_best(*board, depth as int, true, idx as int - 1)
                    }));
                }
            }
            if score >= beta {
                proof {
                    if enable_quiescence {
                        assert(vchild >= beta);
                        lemma_negamax_best_mono(
                            *board,
                            depth as int,
                            true,
                            idx as int,
                            moves@.len() as int,
                        );
                        assert(spec_negamax(*board, depth as int, true) >= beta);
                    }
                }
                return beta;
            }
            if score > lower {
                lower = score;
                search_pv = false;
            }
        } else {
            proof {
                if enable_quiescence {
                    assert(spec_negamax_best(*board, depth as int, true, idx as int)
                        == spec_negamax_best(*board, depth as int, true, idx as int - 1));
                }
            }
        }
    }
    lower
}

/// Reorders the moves using the caller's random source: the result is a
/// permutation of the input (the same moves as a multiset).
fn shuffle<F: Fn() -> u32>(moves: &mut Vec<Move>, random_u32: &F)
    requires
        random_u32.requires(()),
    ensures
        final(moves)@.len() == old(moves)@.len(),
        final(moves)@.to_multiset() == old(moves)@.to_multiset(),
        forall|i: int|
            0 <= i < final(moves)@.len() ==> old(moves)@.contains(#[trigger] final(moves)@[i]),
{
    let ghost orig = moves@;
    let len = moves.len();
    let mut k: usize = 1;
    while k < len
        invariant
            random_u32.requires(()),
            moves@.len() == orig.len(),
            len == orig.len(),
            moves@.to_multiset() == orig.to_multiset(),
            forall|i: int| 0 <= i < moves@.len() ==> orig.contains(#[trigger] moves@[i]),
        decreases len - k,
    {
        let ghost before = moves@;
        let r = random_u32();
        let j = (r as usize) % (k + 1);
        let a = moves[k];
        let b = moves[j];
        moves.set(k, b);
        moves.set(j, a);
        proof {
            broadcast use vstd::multiset::group_multiset_axioms;
            broadcast use vstd::seq_lib::group_to_multiset_ensures;

            vstd::seq_lib::to_multiset_update(before, k as int, b);
            vstd::seq_lib::to_multiset_update(before.update(k as int, b), j as int, a);
            assert(before.contains(a));
            assert(before.to_multiset().count(a) > 0);
            assert(moves@.to_multiset() =~= orig.to_multiset());
        }
        k = k + 1;
    }
}

/// The score the top-level driver assigns a candidate move: the negated
/// negamax value of the position after it, clamped to the full window.
pub open spec fn spec_search_score(b: Board, depth: int, m: Move) -> int {
    spec_clamp(-spec_negamax(spec_apply(b, m), depth - 1, true), -10000, 10000)
}

/// Searches the position to the given depth and returns a good move for
/// the player to move: `None` exactly when the game is over (no legal
/// move exists); the single legal move immediately when only one
/// exists; otherwise a move of the shuffled legal-move list that, with
/// quiescence on, maximises the clamped negamax score over every
/// applicable legal move.
#[verifier::rlimit(100)]
#[verifier::spinoff_prover]
pub fn search<F: Fn() -> u32>(
    board: &Board,
    depth: usize,
    enable_quiescence: bool,
    random_u32: F,
) -> (r: Option<Move>)
    requires
        board.wf(),
        random_u32.requires(()),
    ensures
        r is None <==> spec_all_moves(*board).len() == 0,
        r matches Some(m) ==> spec_all_moves(*board).contains(m),
        spec_all_moves(*board).len() == 1 ==> r == Some(spec_all_moves(*board)[0]),
        depth >= 1 && enable_quiescence ==> (r matches Some(m) ==> (can_apply(*board, m)
            ==> forall|m2: Move|
            spec_all_moves(*board).contains(m2) && can_apply(*board, m2)
                ==> spec_search_score(*board, depth as int, m2) <= spec_search_score(
                *board,
                depth as int,
                m,
            ))),
{
    proof {
        broadcast use vstd::seq_lib::group_to_multiset_ensures;

    }
    let mut moves = board.all_moves();
    if moves.len() == 0 {
        return None;
    }
    if moves.len() == 1 {
        proof {
            assert forall|m2: Move| spec_all_moves(*board).contains(m2) implies m2
                == spec_all_moves(*board)[0] by {}
        }
        return Some(moves[0]);
    }
    shuffle(&mut moves, &random_u32);
    proof {
        assert(spec_all_moves(*board).contains(moves@[0]));
    }
    if depth == 0 {
        return Some(moves[0]);
    }
    let beta: i32 = 10000;
    let mut alpha: i32 = -10000;
    let mut best_move = moves[0];
    if board.check_applyable(moves[0]) {
        let mut new_board = *board;
        new_board.apply_move(moves[0]);
        alpha = -pv_search(&new_board, -10000, 10000, depth - 1, enable_quiescence);
        proof {
            if enable_quiescence {
                assert(alpha as int == spec_search_score(*board, depth as int, best_move));
            }
        }
    }
    let mut idx: usize = 1;
    while idx < moves.len()
        invariant
            board.wf(),
            -10000 <= alpha <= 10000,
            beta == 10000,
            depth >= 1,
            idx <= moves@.len(),
            spec_all_moves(*board).contains(best_move),
            moves@.to_multiset() == spec_all_moves(*board).to_multiset(),
            forall|i: int|
                0 <= i < moves@.len() ==> spec_all_moves(*board).contains(#[trigger] moves@[i]),
            enable_quiescence ==> (can_apply(*board, best_move) ==> alpha as int
                == spec_search_score(*board, depth as int, best_move)),
            enable_quiescence ==> (!can_apply(*board, best_move) ==> alpha == -10000),
            enable_quiescence ==> forall|i: int|
                0 <= i < idx && can_apply(*board, #[trigger] moves@[i]) ==> spec_search_score(
                    *board,
                    depth as int,
                    moves@[i],
                ) <= alpha,
        decreases moves.len() - idx,
    {
        let m = moves[idx];
        idx = idx + 1;
        if alpha < beta && board.check_applyable(m) {
            let mut new_board = *board;
            new_board.apply_move(m);
            let ghost vchild = -spec_negamax(new_board, depth as int - 1, true);
            let score = -pv_search(&new_board, -beta, -alpha, depth - 1, enable_quiescence);
            proof {
                if enable_quiescence {
                    assert(score as int == spec_clamp(vchild, alpha as int, beta as int));
                    if score > alpha {
                        assert(spec_search_score(*board, depth as int, m) == score as int);
                    } else {
                        assert(spec_search_score(*board, depth as int, m) <= alpha as int);
                    }
                }
            }
            if score > alpha {
                alpha = score;
                best_move = m;
            }
        } else {
            proof {
                if enable_quiescence && can_apply(*board, m) {
                    assert(alpha == beta);
                    assert(spec_search_score(*board, depth as int, m) <= 10000);
                }
            }
        }
    }
    proof {
        if enable_quiescence && can_apply(*board, best_move) {
            assert forall|m2: Move|
                spec_all_moves(*board).contains(m2) && can_apply(*board, m2)
                    implies spec_search_score(*board, depth as int, m2) <= spec_search_score(
                *board,
                depth as int,
                best_move,
            ) by {
                assert(spec_all_moves(*board).to_multiset().count(m2) > 0);
                assert(moves@.to_multiset().count(m2) > 0);
                assert(moves@.contains(m2));
                let i = choose|i: int| 0 <= i < moves@.len() && moves@[i] == m2;
                assert(spec_search_score(*board, depth as int, moves@[i]) <= alpha);
            }
        }
    }
    Some(best_move)
}

} // verus!
