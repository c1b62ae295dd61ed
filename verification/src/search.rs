//! The search: the MVV-LVA move orderer, the capture-only quiescence
//! extension, the fixed-depth negamax with alpha-beta pruning, and the
//! root driver — each verified to compute exactly the model's value.

use vstd::prelude::*;

use crate::eval::evaluate_game_over;
use crate::eval::evaluate_position;
use crate::model::CHECK_FUEL;
use crate::model::DRIVER_FLOOR;
use crate::model::GameStatus;
use crate::model::Mv;
use crate::model::PieceKind;
use crate::model::QUIESCE_FLOOR;
use crate::model::WINDOW_SCORE;
use crate::model::best_move_of;
use crate::model::capture_key;
use crate::model::captures_in;
use crate::model::drive_scan;
use crate::model::driver_default_mv;
use crate::model::insert_pair;
use crate::model::is_capture;
use crate::model::keyed;
use crate::model::move_ok;
use crate::model::moves_of;
use crate::model::negamax_of;
use crate::model::negamax_scan;
use crate::model::piece_value;
use crate::model::quiesce_of;
use crate::model::quiesce_scan;
use crate::model::sort_pairs;
use crate::model::side_count;
use crate::model::sorted_captures_of;
use crate::model::valid_board;
use crate::rules::apply_move;
use crate::rules::get_status;
use crate::rules::is_sane_board;
use crate::rules::legal_moves;
use crate::rules::piece_count;
use crate::rules::piece_on;

verus! {

/// The material value of a piece, as the move orderer weighs it.
pub fn piece_val(k: PieceKind) -> (r: i64)
    ensures
        r == piece_value(k),
{
    match k {
        PieceKind::Pawn => 1,
        PieceKind::Knight => 3,
        PieceKind::Bishop => 3,
        PieceKind::Rook => 5,
        PieceKind::Queen => 9,
        PieceKind::King => 10,
    }
}

/// Stable insertion of `p` into a sorted `s` lands exactly at the first
/// position `j` from the right whose left neighbour's key is no larger.
proof fn lemma_insert_pair_at(s: Seq<(Mv, i64)>, p: (Mv, i64), j: int)
    requires
        0 <= j <= s.len(),
        forall|t: int| j <= t < s.len() ==> (#[trigger] s[t]).1 > p.1,
        j > 0 ==> s[j - 1].1 <= p.1,
    ensures
        insert_pair(s, p) == s.insert(j, p),
    decreases s.len(),
{
    if j == s.len() {
        if s.len() == 0 {
            assert(insert_pair(s, p) =~= s.insert(j, p));
        } else {
            assert(s.last().1 <= p.1);
            assert(insert_pair(s, p) =~= s.insert(j, p));
        }
    } else {
        assert(s.last().1 > p.1);
        lemma_insert_pair_at(s.drop_last(), p, j);
        assert(insert_pair(s, p) =~= s.insert(j, p));
    }
}

/// Every element of `insert_pair(s, p)` is `p` or an element of `s`.
pub(crate) proof fn lemma_insert_pair_elems(s: Seq<(Mv, i64)>, p: (Mv, i64), q: (Mv, i64))
    requires
        insert_pair(s, p).contains(q),
    ensures
        q == p || s.contains(q),
    decreases s.len(),
{
    if s.len() == 0 {
        assert(insert_pair(s, p) =~= seq![p]);
    } else if s.last().1 <= p.1 {
        let t = choose|t: int| 0 <= t < s.push(p).len() && s.push(p)[t] == q;
        if t < s.len() {
            assert(s[t] == q);
        }
    } else {
        let inner = insert_pair(s.drop_last(), p);
        let t = choose|t: int|
            0 <= t < inner.push(s.last()).len() && inner.push(s.last())[t] == q;
        if t < inner.len() {
            assert(inner[t] == q);
            lemma_insert_pair_elems(s.drop_last(), p, q);
            if s.drop_last().contains(q) {
                let u = choose|u: int| 0 <= u < s.drop_last().len() && s.drop_last()[u] == q;
                assert(s[u] == q);
            }
        } else {
            assert(q == s.last());
            assert(s[s.len() - 1] == q);
        }
    }
}

/// Every element of `sort_pairs(s)` is an element of `s`.
proof fn lemma_sort_pairs_elems(s: Seq<(Mv, i64)>, q: (Mv, i64))
    requires
        sort_pairs(s).contains(q),
    ensures
        s.contains(q),
    decreases s.len(),
{
    if s.len() == 0 {
    } else {
        lemma_insert_pair_elems(sort_pairs(s.drop_last()), s.last(), q);
        if q == s.last() {
            assert(s[s.len() - 1] == q);
        } else {
            lemma_sort_pairs_elems(s.drop_last(), q);
            let u = choose|u: int| 0 <= u < s.drop_last().len() && s.drop_last()[u] == q;
            assert(s[u] == q);
        }
    }
}

/// MVV-LVA ordering of a list of capture moves: each capture is keyed by
/// attacker value minus victim value and the list is sorted ascending by
/// that key, stably, so the most favourable captures come first.  A
/// "capture" without a piece on both squares, or with a king as victim,
/// would be a rules-engine contract breach and is excluded outright.
#[verifier::loop_isolation(false)]
pub fn sort_captures(b: chess::Board, captures: Vec<Mv>) -> (r: Vec<(Mv, i64)>)
    requires
        forall|i: int| 0 <= i < captures@.len() ==> move_ok(b, #[trigger] captures@[i]) && is_capture(
            b,
            captures@[i],
        ),
    ensures
        r@ == sort_pairs(keyed(b, captures@)),
{
    let n = captures.len();
    let mut pairs: Vec<(Mv, i64)> = Vec::new();
    let mut i: usize = 0;
    while i < n
        invariant
            0 <= i <= n,
            pairs@ == keyed(b, captures@.take(i as int)),
        decreases n - i,
    {
        let m = captures[i];
        let atk = match piece_on(&b, m.from) {
            Some(k) => piece_val(k),
            None => {
                proof {
                    assert(false);
                }
                0
            },
        };
        let vic = match piece_on(&b, m.to) {
            Some(PieceKind::King) => {
                proof {
                    assert(false);
                }
                0
            },
            Some(k) => piece_val(k),
            None => {
                proof {
                    assert(false);
                }
                0
            },
        };
        let key = atk - vic;
        pairs.push((m, key));
        proof {
            assert(keyed(b, captures@.take(i + 1 as int)) =~= keyed(
                b,
                captures@.take(i as int),
            ).push((m, capture_key(b, m) as i64)));
        }
        i += 1;
    }
    proof {
        assert(captures@.take(n as int) =~= captures@);
    }
    let mut sorted: Vec<(Mv, i64)> = Vec::new();
    let mut i: usize = 0;
    while i < n
        invariant
            0 <= i <= n,
            n == pairs@.len(),
            sorted@ == sort_pairs(pairs@.take(i as int)),
        decreases n - i,
    {
        let p = pairs[i];
        let mut j: usize = sorted.len();
        while j > 0 && sorted[j - 1].1 > p.1
            invariant
                0 <= j <= sorted@.len(),
                forall|t: int| j <= t < sorted@.len() ==> (#[trigger] sorted@[t]).1 > p.1,
            decreases j,
        {
            j -= 1;
        }
        proof {
            lemma_insert_pair_at(sorted@, p, j as int);
            assert(pairs@.take(i + 1 as int).drop_last() =~= pairs@.take(i as int));
        }
        sorted.insert(j, p);
        i += 1;
    }
    proof {
        assert(pairs@.take(n as int) =~= pairs@);
    }
    sorted
}

/// Quiescence search: the stand-pat evaluation first, then only capture
/// moves, ordered by `sort_captures`, each searched with the negated,
/// swapped window and a decremented budget, with beta cutoffs and alpha
/// raises; an exhausted budget returns the stand-pat score directly.
#[verifier::loop_isolation(false)]
pub fn evaluate_only_stable(b: chess::Board, alpha: i64, beta: i64, depth: i8) -> (r: i64)
    requires
        valid_board(b),
        QUIESCE_FLOOR <= depth <= 0,
        -WINDOW_SCORE <= alpha <= WINDOW_SCORE,
        -WINDOW_SCORE <= beta <= WINDOW_SCORE,
    ensures
        r == quiesce_of(b, alpha as int, beta as int, depth as int),
        -WINDOW_SCORE <= r <= WINDOW_SCORE,
    decreases depth - QUIESCE_FLOOR,
{
    let stand_pat = evaluate_position(b, depth, CHECK_FUEL);
    if depth <= QUIESCE_FLOOR {
        return stand_pat;
    }
    if stand_pat >= beta {
        return beta;
    }
    let mut alpha_now = alpha;
    if alpha_now < stand_pat {
        alpha_now = stand_pat;
    }
    let moves = legal_moves(&b);
    let mut caps: Vec<Mv> = Vec::new();
    let mut i: usize = 0;
    while i < moves.len()
        invariant
            0 <= i <= moves@.len(),
            caps@ == captures_in(b, moves@.take(i as int)),
            forall|t: int| 0 <= t < caps@.len() ==> moves_of(b).contains(#[trigger] caps@[t])
                && move_ok(b, caps@[t]) && is_capture(b, caps@[t]),
        decreases moves@.len() - i,
    {
        let m = moves[i];
        let occ = piece_on(&b, m.to);
        proof {
            assert(moves@.take(i + 1 as int).drop_last() =~= moves@.take(i as int));
            assert(moves@.take(i + 1 as int).last() == m);
        }
        if occ.is_some() {
            caps.push(m);
        }
        i += 1;
    }
    proof {
        assert(moves@.take(moves@.len() as int) =~= moves@);
    }
    let ghost capseq = caps@;
    let sorted = sort_captures(b, caps);
    let mut i: usize = 0;
    while i < sorted.len()
        invariant
            0 <= i <= sorted@.len(),
            sorted@ == sorted_captures_of(b),
            -WINDOW_SCORE <= alpha_now <= WINDOW_SCORE,
            quiesce_of(b, alpha as int, beta as int, depth as int) == quiesce_scan(
                b,
                alpha_now as int,
                beta as int,
                depth as int,
                i as int,
            ),
        decreases sorted@.len() - i,
    {
        let p = sorted[i];
        proof {
            assert(sorted@[i as int] == p);
            assert(sorted_captures_of(b).contains(p));
            lemma_sort_pairs_elems(keyed(b, capseq), p);
            let t = choose|t: int| 0 <= t < keyed(b, capseq).len() && keyed(b, capseq)[t] == p;
            assert(capseq[t] == p.0);
            assert(moves_of(b).contains(p.0));
        }
        let m = p.0;
        let child = apply_move(&b, &m);
        let score = -evaluate_only_stable(child, -beta, -alpha_now, depth - 1);
        if score >= beta {
            return beta;
        }
        if score > alpha_now {
            alpha_now = score;
        }
        i += 1;
    }
    alpha_now
}

/// Fixed-depth negamax search with alpha-beta pruning.  A finished game
/// scores by the terminal rule; depth zero hands over to the quiescence
/// search; otherwise each legal move is searched one ply shallower under
/// the negated, swapped window, a score at or above beta cuts off with
/// exactly beta, and the final alpha is returned.
#[verifier::loop_isolation(false)]
pub fn score_move(b: chess::Board, depth: i8, alpha: i64, beta: i64) -> (r: i64)
    requires
        valid_board(b),
        0 <= depth,
        -WINDOW_SCORE <= alpha <= WINDOW_SCORE,
        -WINDOW_SCORE <= beta <= WINDOW_SCORE,
    ensures
        r == negamax_of(b, depth as int, alpha as int, beta as int),
        -WINDOW_SCORE <= r <= WINDOW_SCORE,
    decreases depth as int,
{
    let status = get_status(&b);
    if status != GameStatus::Ongoing {
        return evaluate_game_over(b, depth);
    }
    if depth == 0 {
        return evaluate_only_stable(b, alpha, beta, 0);
    }
    let moves = legal_moves(&b);
    let mut alpha_now = alpha;
    let mut i: usize = 0;
    while i < moves.len()
        invariant
            0 <= i <= moves@.len(),
            -WINDOW_SCORE <= alpha_now <= WINDOW_SCORE,
            negamax_of(b, depth as int, alpha as int, beta as int) == negamax_scan(
                b,
                depth as int,
                alpha_now as int,
                beta as int,
                i as int,
            ),
        decreases moves@.len() - i,
    {
        proof {
            assert(moves_of(b).contains(moves@[i as int]));
        }
        let m = moves[i];
        let child = apply_move(&b, &m);
        let move_score = -score_move(child, depth - 1, -beta, -alpha_now);
        if move_score >= beta {
            return beta;
        }
        if move_score > alpha_now {
            alpha_now = move_score;
        }
        i += 1;
    }
    alpha_now
}

/// The root driver: searches every legal root move one ply shallower
/// under the root window, keeps the first move with the strictly highest
/// negated score, and raises alpha as the best score climbs; beta is
/// never tightened at the root.  The side to move must have a legal move.
/// The chosen move is a function of the position and depth alone, so
/// repeated calls on the same inputs choose the same move.
#[verifier::loop_isolation(false)]
pub fn best_move(b: chess::Board, depth: i8) -> (r: Mv)
    requires
        valid_board(b),
        1 <= depth,
        moves_of(b).len() > 0,
    ensures
        r == best_move_of(b, depth as int),
        moves_of(b).contains(r),
{
    let mut best_score: i64 = -DRIVER_FLOOR;
    let mut alpha: i64 = -WINDOW_SCORE;
    let beta: i64 = WINDOW_SCORE;
    let mut best = Mv { from: 0, to: 8, promotion: None };
    let moves = legal_moves(&b);
    let mut i: usize = 0;
    while i < moves.len()
        invariant
            0 <= i <= moves@.len(),
            -WINDOW_SCORE <= alpha <= WINDOW_SCORE,
            -DRIVER_FLOOR <= best_score <= WINDOW_SCORE,
            i == 0 ==> best_score == -DRIVER_FLOOR,
            i > 0 ==> moves_of(b).contains(best),
            drive_scan(
                b,
                depth as int,
                0,
                -WINDOW_SCORE as int,
                -DRIVER_FLOOR as int,
                driver_default_mv(),
            ) == drive_scan(b, depth as int, i as int, alpha as int, best_score as int, best),
        decreases moves@.len() - i,
    {
        proof {
            assert(moves_of(b).contains(moves@[i as int]));
        }
        let m = moves[i];
        let child = apply_move(&b, &m);
        let move_score = -score_move(child, depth - 1, -beta, -alpha);
        if move_score > best_score {
            best_score = move_score;
            best = m;
        }
        if move_score > alpha {
            alpha = move_score;
        }
        i += 1;
    }
    best
}

/// How many pieces one side has in all, the king included.
fn side_pieces(b: &chess::Board, own: bool) -> (r: u32)
    ensures
        r == side_count(*b, own),
        r <= 384,
{
    piece_count(b, own, PieceKind::Pawn) + piece_count(b, own, PieceKind::Knight) + piece_count(
        b,
        own,
        PieceKind::Bishop,
    ) + piece_count(b, own, PieceKind::Rook) + piece_count(b, own, PieceKind::Queen) + piece_count(
        b,
        own,
        PieceKind::King,
    )
}

/// Whether the engine accepts a position to search: the rules engine's
/// own sanity check passes and neither side exceeds a game's piece
/// budget, which the rules engine's fixed-size move list is sized for.
pub fn board_accepted(b: &chess::Board) -> (r: bool)
    ensures
        r == valid_board(*b),
{
    if !is_sane_board(b) {
        return false;
    }
    let own = side_pieces(b, true);
    let opp = side_pieces(b, false);
    own <= 16 && opp <= 16
}

/// The checked entry point: chooses a move when the depth is positive,
/// the position is one the engine accepts, and the side to move has a
/// legal move — and reports `None` otherwise instead of returning a
/// meaningless move.
pub fn choose_move(b: chess::Board, depth: i8) -> (r: Option<Mv>)
    ensures
        (r is Some) <==> (1 <= depth && valid_board(b) && moves_of(b).len() > 0),
        r matches Some(m) ==> m == best_move_of(b, depth as int) && moves_of(b).contains(m),
{
    if depth < 1 {
        return None;
    }
    if !board_accepted(&b) {
        return None;
    }
    let moves = legal_moves(&b);
    if moves.len() == 0 {
        return None;
    }
    Some(best_move(b, depth))
}

} // verus!
