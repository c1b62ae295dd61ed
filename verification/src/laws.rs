//! The engine's stated laws, proved against the model: evaluator
//! symmetry under the side-to-move flip, the ordering of mate scores,
//! stalemate scoring, window clipping of the search, what the root
//! driver makes of mating and stalemating moves, and the ordering
//! produced by the move orderer.

use vstd::prelude::*;

use crate::model::CHECK_FUEL;
use crate::model::DRIVER_FLOOR;
use crate::model::GameStatus;
use crate::model::MATE_SCORE;
use crate::model::Mv;
use crate::model::QUIESCE_FLOOR;
use crate::model::WINDOW_SCORE;
use crate::model::best_move_of;
use crate::model::drive_scan;
use crate::model::driver_default_mv;
use crate::model::eval_of;
use crate::model::in_check_of;
use crate::model::insert_pair;
use crate::model::keyed;
use crate::model::material_of;
use crate::model::mobility_of;
use crate::model::moves_of;
use crate::model::negamax_of;
use crate::model::negamax_scan;
use crate::model::null_keeps_material;
use crate::model::null_of;
use crate::model::quiesce_of;
use crate::model::quiesce_scan;
use crate::model::sort_pairs;
use crate::model::sorted_captures_of;
use crate::model::status_of;
use crate::search::lemma_insert_pair_elems;

verus! {

/// Negamax symmetry of the evaluator: flipping only the side to move
/// negates the static evaluation.  Holds whenever the game is still on
/// and neither side is in check after either flip, and flipping twice
/// returns the original position — the rules engine clears an en-passant
/// square on the flip, so positions with one are outside this law.
pub proof fn lemma_eval_symmetry(b: chess::Board)
    requires
        status_of(b) == GameStatus::Ongoing,
        status_of(null_of(b)) == GameStatus::Ongoing,
        !in_check_of(b),
        !in_check_of(null_of(b)),
        null_of(null_of(b)) == b,
        null_keeps_material(b),
    ensures
        forall|depth: int, fuel: nat|
            eval_of(null_of(b), depth, fuel) == -eval_of(b, depth, fuel),
{
    assert(material_of(null_of(b)) == -material_of(b));
    assert(mobility_of(null_of(b)) == -mobility_of(b));
}

/// Mate scores order by distance: for the mating side (one negation up),
/// a checkmate reached with more remaining depth — that is, fewer plies
/// from the root — scores strictly higher than one reached deeper.
pub proof fn lemma_closer_mate_more_extreme(
    b1: chess::Board,
    b2: chess::Board,
    d1: int,
    d2: int,
    alpha1: int,
    beta1: int,
    alpha2: int,
    beta2: int,
)
    requires
        status_of(b1) == GameStatus::Checkmate,
        status_of(b2) == GameStatus::Checkmate,
        d2 < d1,
    ensures
        -negamax_of(b1, d1, alpha1, beta1) > -negamax_of(b2, d2, alpha2, beta2),
        -negamax_of(b1, d1, alpha1, beta1) == MATE_SCORE + d1,
        forall|fuel: nat| eval_of(b1, d1, fuel) == -MATE_SCORE - d1,
{
}

/// A stalemate position scores exactly zero — in the search, whatever
/// the depth and window, and in the static evaluator's terminal rule.
pub proof fn lemma_stalemate_zero(b: chess::Board, depth: int, alpha: int, beta: int)
    requires
        status_of(b) == GameStatus::Stalemate,
    ensures
        negamax_of(b, depth, alpha, beta) == 0,
        forall|fuel: nat| eval_of(b, depth, fuel) == 0,
{
}

/// The negamax move loop never leaves the window.
proof fn lemma_negamax_scan_window(b: chess::Board, depth: int, alpha: int, beta: int, i: int)
    requires
        alpha <= beta,
        0 <= i,
    ensures
        alpha <= negamax_scan(b, depth, alpha, beta, i) <= beta,
    decreases moves_of(b).len() - i,
{
    if depth <= 0 || i >= moves_of(b).len() {
    } else {
        let s = -negamax_of(after(b, i), depth - 1, -beta, -alpha);
        if s >= beta {
        } else {
            let a2 = if s > alpha {
                s
            } else {
                alpha
            };
            lemma_negamax_scan_window(b, depth, a2, beta, i + 1);
        }
    }
}

/// Shorthand for the successor position of the `i`-th legal move.
spec fn after(b: chess::Board, i: int) -> chess::Board {
    crate::model::after_of(b, moves_of(b)[i])
}

/// The quiescence capture loop never leaves the window.
proof fn lemma_quiesce_scan_window(b: chess::Board, alpha: int, beta: int, budget: int, i: int)
    requires
        alpha <= beta,
        0 <= i,
    ensures
        alpha <= quiesce_scan(b, alpha, beta, budget, i) <= beta,
    decreases sorted_captures_of(b).len() - i,
{
    let caps = sorted_captures_of(b);
    if budget <= QUIESCE_FLOOR || i >= caps.len() {
    } else {
        let s = -quiesce_of(crate::model::after_of(b, caps[i].0), -beta, -alpha, budget - 1);
        if s >= beta {
        } else {
            let a2 = if s > alpha {
                s
            } else {
                alpha
            };
            lemma_quiesce_scan_window(b, a2, beta, budget, i + 1);
        }
    }
}

/// Quiescence search with budget to spend never leaves the window.
pub proof fn lemma_quiesce_window(b: chess::Board, alpha: int, beta: int, budget: int)
    requires
        alpha <= beta,
        budget > QUIESCE_FLOOR,
    ensures
        alpha <= quiesce_of(b, alpha, beta, budget) <= beta,
{
    let stand_pat = eval_of(b, budget, CHECK_FUEL as nat);
    if stand_pat >= beta {
    } else {
        let a = if alpha < stand_pat {
            stand_pat
        } else {
            alpha
        };
        lemma_quiesce_scan_window(b, a, beta, budget, 0);
    }
}

/// Window clipping: on an ongoing position the negamax value never lies
/// outside the supplied window — it is alpha when no move beats alpha,
/// exactly beta on a cutoff, and interior otherwise.  A finished game
/// instead scores by the terminal rule regardless of the window.
pub proof fn lemma_negamax_window(b: chess::Board, depth: int, alpha: int, beta: int)
    requires
        alpha <= beta,
        0 <= depth,
        status_of(b) == GameStatus::Ongoing,
    ensures
        alpha <= negamax_of(b, depth, alpha, beta) <= beta,
{
    if depth <= 0 {
        lemma_quiesce_window(b, alpha, beta, 0);
    } else {
        lemma_negamax_scan_window(b, depth, alpha, beta, 0);
    }
}

/// Ascending order by key.
pub open spec fn keys_sorted(s: Seq<(Mv, i64)>) -> bool {
    forall|i: int, j: int| 0 <= i < j < s.len() ==> (#[trigger] s[i]).1 <= (#[trigger] s[j]).1
}

/// Stable insertion keeps the keys sorted.
proof fn lemma_insert_pair_keeps_sorted(s: Seq<(Mv, i64)>, p: (Mv, i64))
    requires
        keys_sorted(s),
    ensures
        keys_sorted(insert_pair(s, p)),
    decreases s.len(),
{
    if s.len() == 0 {
    } else if s.last().1 <= p.1 {
        assert forall|i: int, j: int|
            0 <= i < j < s.push(p).len() implies (s.push(p)[i]).1 <= (s.push(p)[j]).1 by {
            if j < s.len() {
            } else {
                if i < s.len() - 1 {
                    assert(s[i].1 <= s[s.len() - 1].1);
                }
            }
        }
    } else {
        lemma_insert_pair_keeps_sorted(s.drop_last(), p);
        let inner = insert_pair(s.drop_last(), p);
        assert forall|t: int| 0 <= t < inner.len() implies inner[t].1 <= s.last().1 by {
            assert(inner.contains(inner[t]));
            lemma_insert_pair_elems(s.drop_last(), p, inner[t]);
            if s.drop_last().contains(inner[t]) {
                let u = choose|u: int|
                    0 <= u < s.drop_last().len() && s.drop_last()[u] == inner[t];
                if u < s.len() - 1 {
                    assert(s[u].1 <= s[s.len() - 1].1);
                }
            }
        }
        assert forall|i: int, j: int|
            0 <= i < j < inner.push(s.last()).len() implies (inner.push(s.last())[i]).1 <= (
        inner.push(s.last())[j]).1 by {
            if j < inner.len() {
            }
        }
    }
}

/// Insertion sort sorts.
proof fn lemma_sort_pairs_sorted(s: Seq<(Mv, i64)>)
    ensures
        keys_sorted(sort_pairs(s)),
    decreases s.len(),
{
    if s.len() == 0 {
    } else {
        lemma_sort_pairs_sorted(s.drop_last());
        lemma_insert_pair_keeps_sorted(sort_pairs(s.drop_last()), s.last());
    }
}

/// The move orderer's guarantee: the captures the quiescence search
/// visits come in ascending MVV-LVA key order — most favourable captures
/// first.
pub proof fn lemma_sorted_captures_sorted(b: chess::Board)
    ensures
        keys_sorted(sorted_captures_of(b)),
{
    lemma_sort_pairs_sorted(keyed(b, crate::model::captures_in(b, moves_of(b))));
}

/// The driver's running best score never decreases as the scan advances.
proof fn lemma_drive_scan_monotone(
    b: chess::Board,
    depth: int,
    i: int,
    alpha: int,
    best_score: int,
    best: Mv,
)
    requires
        0 <= i,
    ensures
        drive_scan(b, depth, i, alpha, best_score, best).0 >= best_score,
    decreases moves_of(b).len() - i,
{
    if i >= moves_of(b).len() {
    } else {
        let m = moves_of(b)[i];
        let s = -negamax_of(crate::model::after_of(b, m), depth - 1, -WINDOW_SCORE as int, -alpha);
        let bs = if s > best_score {
            s
        } else {
            best_score
        };
        let bm = if s > best_score {
            m
        } else {
            best
        };
        let a = if s > alpha {
            s
        } else {
            alpha
        };
        lemma_drive_scan_monotone(b, depth, i + 1, a, bs, bm);
    }
}

/// A root move into checkmate scores the mate-in-one value in every
/// window, so from any state of the scan the final best score reaches it.
proof fn lemma_drive_scan_sees_mate(
    b: chess::Board,
    depth: int,
    i: int,
    alpha: int,
    best_score: int,
    best: Mv,
    k: int,
)
    requires
        0 <= i <= k < moves_of(b).len(),
        status_of(crate::model::after_of(b, moves_of(b)[k])) == GameStatus::Checkmate,
    ensures
        drive_scan(b, depth, i, alpha, best_score, best).0 >= MATE_SCORE + depth - 1,
    decreases k - i,
{
    let m = moves_of(b)[i];
    let s = -negamax_of(crate::model::after_of(b, m), depth - 1, -WINDOW_SCORE as int, -alpha);
    let bs = if s > best_score {
        s
    } else {
        best_score
    };
    let bm = if s > best_score {
        m
    } else {
        best
    };
    let a = if s > alpha {
        s
    } else {
        alpha
    };
    if i == k {
        assert(s == MATE_SCORE + depth - 1);
        lemma_drive_scan_monotone(b, depth, i + 1, a, bs, bm);
    } else {
        lemma_drive_scan_sees_mate(b, depth, i + 1, a, bs, bm, k);
    }
}

/// When some legal root move delivers immediate checkmate, the driver's
/// final score is at least the mate-in-one value: every alternative must
/// outscore an immediate mate to displace it.
pub proof fn lemma_mate_in_one_lifts_best_score(b: chess::Board, depth: int, k: int)
    requires
        0 <= k < moves_of(b).len(),
        status_of(crate::model::after_of(b, moves_of(b)[k])) == GameStatus::Checkmate,
    ensures
        drive_scan(
            b,
            depth,
            0,
            -WINDOW_SCORE as int,
            -DRIVER_FLOOR as int,
            driver_default_mv(),
        ).0 >= MATE_SCORE + depth - 1,
{
    lemma_drive_scan_sees_mate(
        b,
        depth,
        0,
        -WINDOW_SCORE as int,
        -DRIVER_FLOOR as int,
        driver_default_mv(),
        k,
    );
}

/// A root move into stalemate scores exactly zero in every window, so the
/// scan never finishes on one while its best score is positive.
proof fn lemma_drive_scan_avoids_stalemate(
    b: chess::Board,
    depth: int,
    i: int,
    alpha: int,
    best_score: int,
    best: Mv,
)
    requires
        0 <= i,
        best_score > 0 ==> status_of(crate::model::after_of(b, best)) != GameStatus::Stalemate,
    ensures
        drive_scan(b, depth, i, alpha, best_score, best).0 > 0 ==> status_of(
            crate::model::after_of(b, drive_scan(b, depth, i, alpha, best_score, best).1),
        ) != GameStatus::Stalemate,
    decreases moves_of(b).len() - i,
{
    if i >= moves_of(b).len() {
    } else {
        let m = moves_of(b)[i];
        let s = -negamax_of(crate::model::after_of(b, m), depth - 1, -WINDOW_SCORE as int, -alpha);
        let bs = if s > best_score {
            s
        } else {
            best_score
        };
        let bm = if s > best_score {
            m
        } else {
            best
        };
        let a = if s > alpha {
            s
        } else {
            alpha
        };
        if s > best_score && s > 0 {
            assert(status_of(crate::model::after_of(b, m)) != GameStatus::Stalemate);
        }
        lemma_drive_scan_avoids_stalemate(b, depth, i + 1, a, bs, bm);
    }
}

/// Whenever the driver's final score is positive, the chosen move does
/// not stalemate the opponent.
pub proof fn lemma_positive_best_score_avoids_stalemate(b: chess::Board, depth: int)
    ensures
        drive_scan(
            b,
            depth,
            0,
            -WINDOW_SCORE as int,
            -DRIVER_FLOOR as int,
            driver_default_mv(),
        ).0 > 0 ==> status_of(crate::model::after_of(b, best_move_of(b, depth)))
            != GameStatus::Stalemate,
{
    lemma_drive_scan_avoids_stalemate(
        b,
        depth,
        0,
        -WINDOW_SCORE as int,
        -DRIVER_FLOOR as int,
        driver_default_mv(),
    );
}

/// With a mate in one on the board and positive depth, the chosen move
/// never stalemates the opponent.
pub proof fn lemma_mate_in_one_never_stalemates(b: chess::Board, depth: int, k: int)
    requires
        1 <= depth,
        0 <= k < moves_of(b).len(),
        status_of(crate::model::after_of(b, moves_of(b)[k])) == GameStatus::Checkmate,
    ensures
        status_of(crate::model::after_of(b, best_move_of(b, depth))) != GameStatus::Stalemate,
{
    lemma_mate_in_one_lifts_best_score(b, depth, k);
    lemma_positive_best_score_avoids_stalemate(b, depth);
}

} // verus!
