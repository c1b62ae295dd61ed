//! The mathematical model of the engine.
//!
//! The rules of chess themselves (which moves are legal, what a move does
//! to the board, whether the side to move is in check) are supplied by the
//! external rules engine and enter the model only through the uninterpreted
//! functions below; the wrappers in `rules` state what each outside call
//! returns in terms of them.  Everything else — the evaluator, the
//! quiescence search, the negamax search and the root driver — is defined
//! here as ordinary spec functions, and the executable code in `eval` and
//! `search` is proved to compute exactly these values.

use vstd::prelude::*;

verus! {

/// The kind of a chess piece, as the engine's scoring tables see it.
#[derive(Clone, Copy, PartialEq, Eq, Debug, Hash)]
pub enum PieceKind {
    Pawn,
    Knight,
    Bishop,
    Rook,
    Queen,
    King,
}

/// Whether a position is still playable or already decided.
#[derive(Clone, Copy, PartialEq, Eq, Structural, Debug)]
pub enum GameStatus {
    Ongoing,
    Checkmate,
    Stalemate,
}

/// A move: source square, destination square (both as indices `0..64`,
/// counting a1, b1, … h1, then a2 and so on), and an optional promotion
/// piece.
#[derive(Clone, Copy, PartialEq, Eq, Debug, Hash)]
pub struct Mv {
    pub from: u8,
    pub to: u8,
    pub promotion: Option<PieceKind>,
}

// ---------------------------------------------------------------------------
// The rules engine, as uninterpreted functions of the board alone.
// ---------------------------------------------------------------------------

/// The legal moves of `b`, in the rules engine's fixed enumeration order.
pub uninterp spec fn moves_of(b: chess::Board) -> Seq<Mv>;

/// Whether the side to move in `b` is in check.
pub uninterp spec fn in_check_of(b: chess::Board) -> bool;

/// The kind of the piece standing on square `sq` of `b`, of either colour.
pub uninterp spec fn piece_at(b: chess::Board, sq: u8) -> Option<PieceKind>;

/// The position that results from playing `m` on `b`.
pub uninterp spec fn after_of(b: chess::Board, m: Mv) -> chess::Board;

/// The position `b` with the side to move flipped and no piece moved.
pub uninterp spec fn null_of(b: chess::Board) -> chess::Board;

/// How many pieces of kind `k` the side to move (`own`) or its opponent
/// (`!own`) has on `b`.
pub uninterp spec fn count_of(b: chess::Board, own: bool, k: PieceKind) -> nat;

/// Whether the rules engine considers the position internally consistent:
/// the result of its own sanity check (one king per side, no two pieces
/// on a square, the side not to move not already in check, castling and
/// en-passant rights that match the pieces).
pub uninterp spec fn sane_of(b: chess::Board) -> bool;

/// Status as the rules engine derives it: a position with a legal move is
/// ongoing; one without is checkmate when in check and stalemate otherwise.
pub open spec fn status_of(b: chess::Board) -> GameStatus {
    if moves_of(b).len() > 0 {
        GameStatus::Ongoing
    } else if in_check_of(b) {
        GameStatus::Checkmate
    } else {
        GameStatus::Stalemate
    }
}

/// How many pieces one side has in all, the king included.
pub open spec fn side_count(b: chess::Board, own: bool) -> int {
    count_of(b, own, PieceKind::Pawn) + count_of(b, own, PieceKind::Knight) + count_of(
        b,
        own,
        PieceKind::Bishop,
    ) + count_of(b, own, PieceKind::Rook) + count_of(b, own, PieceKind::Queen) + count_of(
        b,
        own,
        PieceKind::King,
    ) as int
}

/// Whether both sides are within a game's piece budget.  The rules
/// engine's move generator keeps its move groups in a fixed-size list
/// dimensioned for such positions, so the engine only searches boards
/// that satisfy this bound.
pub open spec fn board_ok(b: chess::Board) -> bool {
    side_count(b, true) <= 16 && side_count(b, false) <= 16
}

/// What the engine demands of every board it searches: within the piece
/// budget and sane by the rules engine's own check.
pub open spec fn valid_board(b: chess::Board) -> bool {
    board_ok(b) && sane_of(b)
}

// ---------------------------------------------------------------------------
// Score conventions.
// ---------------------------------------------------------------------------

/// Magnitude of the checkmate sentinel; mate scores are offset by the
/// remaining depth so that a mate reached sooner is more extreme.
pub const MATE_SCORE: i64 = 10000000;

/// Score assumed for an in-check position once the reply scan's fuel is
/// exhausted.
pub const CHECK_SCORE: i64 = 1000000;

/// Seed of the in-check reply scan: strictly above every reachable score,
/// so that the minimum over the replies — always at least one, since the
/// scan only runs on positions that are in check but not finished —
/// survives the fold.
pub const SCAN_SEED: i64 = MATE_SCORE + 200;

/// Magnitude of the initial alpha/beta window at the root; strictly larger
/// than any reachable real score.
pub const WINDOW_SCORE: i64 = 100000000;

/// Initial "best score" of the root driver, below every window value.
pub const DRIVER_FLOOR: i64 = 1000000000;

/// How many consecutive in-check positions the static evaluator is willing
/// to look past before falling back to the in-check sentinel.
pub const CHECK_FUEL: u8 = 16;

/// How far below zero the quiescence budget may run before the search
/// stops resolving captures and trusts the static evaluation.
pub const QUIESCE_FLOOR: i8 = -10;

/// The material value of a piece.  The king's value only ever enters the
/// move orderer, as an attacker that cannot be recaptured.
pub open spec fn piece_value(k: PieceKind) -> int {
    match k {
        PieceKind::Pawn => 1,
        PieceKind::Knight => 3,
        PieceKind::Bishop => 3,
        PieceKind::Rook => 5,
        PieceKind::Queen => 9,
        PieceKind::King => 10,
    }
}

// ---------------------------------------------------------------------------
// The static evaluator.
// ---------------------------------------------------------------------------

/// Material difference from the perspective of the side to move: for each
/// piece kind but the king, (own count − opponent count) × value.
pub open spec fn material_of(b: chess::Board) -> int {
    (count_of(b, true, PieceKind::Pawn) - count_of(b, false, PieceKind::Pawn)) * 1
        + (count_of(b, true, PieceKind::Knight) - count_of(b, false, PieceKind::Knight)) * 3
        + (count_of(b, true, PieceKind::Bishop) - count_of(b, false, PieceKind::Bishop)) * 3
        + (count_of(b, true, PieceKind::Rook) - count_of(b, false, PieceKind::Rook)) * 5
        + (count_of(b, true, PieceKind::Queen) - count_of(b, false, PieceKind::Queen)) * 9
}

/// Mobility difference from the perspective of the side to move: own legal
/// move count minus the opponent's, the latter taken on the null-moved
/// board.  Meaningful only when the side to move is not in check.
pub open spec fn mobility_of(b: chess::Board) -> int {
    moves_of(b).len() - moves_of(null_of(b)).len()
}

/// The evaluation of a quiet (not in check) position.
pub open spec fn quiet_eval_of(b: chess::Board) -> int {
    100 * material_of(b) + mobility_of(b)
}

/// Static evaluation from the perspective of the side to move.  Terminal
/// status comes first: a finished game scores by the terminal rule, with
/// `depth` the remaining search depth (in the quiescence search, its
/// budget).  A quiet position scores material and mobility.  While in
/// check the null move is illegal, so the evaluator instead scans one ply
/// of actual replies and keeps the one worst for the side to move; `fuel`
/// bounds how many consecutive in-check positions that scan may chain
/// through, and an exhausted scan falls back to the in-check sentinel.
pub open spec fn eval_of(b: chess::Board, depth: int, fuel: nat) -> int
    decreases fuel, 1int, 0int,
{
    if status_of(b) != GameStatus::Ongoing {
        game_over_of(b, depth)
    } else if in_check_of(b) {
        if fuel == 0 {
            -CHECK_SCORE as int
        } else {
            check_scan(b, depth, (fuel - 1) as nat, 0, SCAN_SEED as int)
        }
    } else {
        quiet_eval_of(b)
    }
}

/// The in-check reply scan: over the legal replies from index `i` on, keep
/// the minimum of `worst` and each reply's negated evaluation at `fuel`.
/// Seeded at `SCAN_SEED`, above every reachable score, it returns the
/// value of the reply worst for the side to move.
pub open spec fn check_scan(b: chess::Board, depth: int, fuel: nat, i: int, worst: int) -> int
    decreases fuel + 1, 0int, moves_of(b).len() - i,
{
    if i < 0 || i >= moves_of(b).len() {
        worst
    } else {
        let s = -eval_of(after_of(b, moves_of(b)[i]), depth, fuel);
        check_scan(b, depth, fuel, i + 1, if s < worst { s } else { worst })
    }
}

/// The score of a finished game, from the perspective of the side to move:
/// checkmate is the mate sentinel made more extreme by the remaining
/// search depth, stalemate is exactly zero.
pub open spec fn game_over_of(b: chess::Board, depth: int) -> int {
    if status_of(b) == GameStatus::Checkmate {
        -MATE_SCORE - depth
    } else {
        0
    }
}

// ---------------------------------------------------------------------------
// Captures and the MVV-LVA move orderer.
// ---------------------------------------------------------------------------

/// A move is a capture when its destination square is occupied — legality
/// already rules out a piece of the mover's own colour there.  En-passant
/// captures land on an empty square and are deliberately not included,
/// matching the capture mask the rules engine applies.
pub open spec fn is_capture(b: chess::Board, m: Mv) -> bool {
    piece_at(b, m.to) is Some
}

/// The subsequence of `s` consisting of its captures on `b`, in order.
pub open spec fn captures_in(b: chess::Board, s: Seq<Mv>) -> Seq<Mv>
    decreases s.len(),
{
    if s.len() == 0 {
        Seq::empty()
    } else {
        let rest = captures_in(b, s.drop_last());
        if is_capture(b, s.last()) {
            rest.push(s.last())
        } else {
            rest
        }
    }
}

/// Value of the piece making the move (zero if the square is empty, which
/// legality rules out).
pub open spec fn attacker_value(b: chess::Board, m: Mv) -> int {
    match piece_at(b, m.from) {
        Some(k) => piece_value(k),
        None => 0,
    }
}

/// Value of the piece being captured (zero if the square is empty).
pub open spec fn victim_value(b: chess::Board, m: Mv) -> int {
    match piece_at(b, m.to) {
        Some(k) => piece_value(k),
        None => 0,
    }
}

/// The MVV-LVA ordering key: attacker value minus victim value, so the
/// most materially favourable captures are the most negative.
pub open spec fn capture_key(b: chess::Board, m: Mv) -> int {
    attacker_value(b, m) - victim_value(b, m)
}

/// Each move of `s` paired with its ordering key.
pub open spec fn keyed(b: chess::Board, s: Seq<Mv>) -> Seq<(Mv, i64)> {
    s.map_values(|m: Mv| (m, capture_key(b, m) as i64))
}

/// Stable insertion of `p` into the already sorted `s`: `p` goes after
/// every element whose key is less than or equal to its own.
pub open spec fn insert_pair(s: Seq<(Mv, i64)>, p: (Mv, i64)) -> Seq<(Mv, i64)>
    decreases s.len(),
{
    if s.len() == 0 {
        seq![p]
    } else if s.last().1 <= p.1 {
        s.push(p)
    } else {
        insert_pair(s.drop_last(), p).push(s.last())
    }
}

/// Stable insertion sort of keyed moves, ascending by key.
pub open spec fn sort_pairs(s: Seq<(Mv, i64)>) -> Seq<(Mv, i64)>
    decreases s.len(),
{
    if s.len() == 0 {
        s
    } else {
        insert_pair(sort_pairs(s.drop_last()), s.last())
    }
}

/// The capture moves of `b`, keyed and sorted as the quiescence search
/// visits them.
pub open spec fn sorted_captures_of(b: chess::Board) -> Seq<(Mv, i64)> {
    sort_pairs(keyed(b, captures_in(b, moves_of(b))))
}

// ---------------------------------------------------------------------------
// Quiescence search.
// ---------------------------------------------------------------------------

/// Quiescence search: the stand-pat evaluation, then — while the budget
/// lasts — the sorted captures, each clipped against the (alpha, beta)
/// window.  A budget at or below `QUIESCE_FLOOR` returns the stand-pat
/// score unclipped.
pub open spec fn quiesce_of(b: chess::Board, alpha: int, beta: int, budget: int) -> int
    decreases budget - QUIESCE_FLOOR, 1int, 0int,
{
    let stand_pat = eval_of(b, budget, CHECK_FUEL as nat);
    if budget <= QUIESCE_FLOOR {
        stand_pat
    } else if stand_pat >= beta {
        beta
    } else {
        let a = if alpha < stand_pat {
            stand_pat
        } else {
            alpha
        };
        quiesce_scan(b, a, beta, budget, 0)
    }
}

/// The capture loop of the quiescence search, from capture index `i` on.
pub open spec fn quiesce_scan(b: chess::Board, alpha: int, beta: int, budget: int, i: int) -> int
    decreases budget - QUIESCE_FLOOR, 0int, sorted_captures_of(b).len() - i,
{
    let caps = sorted_captures_of(b);
    if budget <= QUIESCE_FLOOR || i < 0 || i >= caps.len() {
        alpha
    } else {
        let s = -quiesce_of(after_of(b, caps[i].0), -beta, -alpha, budget - 1);
        if s >= beta {
            beta
        } else {
            quiesce_scan(b, if s > alpha { s } else { alpha }, beta, budget, i + 1)
        }
    }
}

// ---------------------------------------------------------------------------
// Negamax search.
// ---------------------------------------------------------------------------

/// Fixed-depth negamax with alpha-beta pruning.  A finished game scores by
/// `game_over_of`; at depth zero the quiescence search takes over with a
/// fresh budget; otherwise every legal move is searched one ply shallower
/// under the negated, swapped window.
pub open spec fn negamax_of(b: chess::Board, depth: int, alpha: int, beta: int) -> int
    decreases depth, 1int, 0int,
{
    if status_of(b) != GameStatus::Ongoing {
        game_over_of(b, depth)
    } else if depth <= 0 {
        quiesce_of(b, alpha, beta, 0)
    } else {
        negamax_scan(b, depth, alpha, beta, 0)
    }
}

/// The move loop of the negamax search, from move index `i` on: a score at
/// or above beta cuts off with exactly beta, a score above alpha raises
/// alpha, and the final alpha is the result.
pub open spec fn negamax_scan(b: chess::Board, depth: int, alpha: int, beta: int, i: int) -> int
    decreases depth, 0int, moves_of(b).len() - i,
{
    if depth <= 0 || i < 0 || i >= moves_of(b).len() {
        alpha
    } else {
        let s = -negamax_of(after_of(b, moves_of(b)[i]), depth - 1, -beta, -alpha);
        if s >= beta {
            beta
        } else {
            negamax_scan(b, depth, if s > alpha { s } else { alpha }, beta, i + 1)
        }
    }
}

// ---------------------------------------------------------------------------
// The root driver.
// ---------------------------------------------------------------------------

/// The move the driver starts from before any root move has been scored.
pub open spec fn driver_default_mv() -> Mv {
    Mv { from: 0, to: 8, promotion: None }
}

/// The root loop: each root move from index `i` on is searched at
/// `depth − 1` under the window `(-WINDOW_SCORE, -alpha)` and negated; a
/// strictly better score replaces the best move, so the first of equal
/// scores wins, and alpha rises with the best score.  Beta is never
/// tightened at the root.  Returns (best score, best move).
pub open spec fn drive_scan(
    b: chess::Board,
    depth: int,
    i: int,
    alpha: int,
    best_score: int,
    best: Mv,
) -> (int, Mv)
    decreases moves_of(b).len() - i,
{
    if i < 0 || i >= moves_of(b).len() {
        (best_score, best)
    } else {
        let m = moves_of(b)[i];
        let s = -negamax_of(after_of(b, m), depth - 1, -WINDOW_SCORE as int, -alpha);
        let bs = if s > best_score {
            s
        } else {
            best_score
        };
        let bm = if s > best_score {
            m
        } else {
            best
        };
        let a = if s > alpha {
            s
        } else {
            alpha
        };
        drive_scan(b, depth, i + 1, a, bs, bm)
    }
}

/// The move the driver chooses for `b` at `depth`.
pub open spec fn best_move_of(b: chess::Board, depth: int) -> Mv {
    drive_scan(
        b,
        depth,
        0,
        -WINDOW_SCORE as int,
        -DRIVER_FLOOR as int,
        driver_default_mv(),
    ).1
}

// ---------------------------------------------------------------------------
// The textual move encoding of the engine's boundary.
// ---------------------------------------------------------------------------

/// A square as two ASCII bytes: file letter then rank digit.
pub open spec fn square_code_of(sq: u8) -> Seq<u8> {
    seq![(97 + (sq as int % 8)) as u8, (49 + (sq as int / 8)) as u8]
}

/// The ASCII name of a piece kind.
pub open spec fn piece_name_of(k: PieceKind) -> Seq<u8> {
    match k {
        PieceKind::Pawn => seq![80u8, 97u8, 119u8, 110u8],
        PieceKind::Knight => seq![75u8, 110u8, 105u8, 103u8, 104u8, 116u8],
        PieceKind::Bishop => seq![66u8, 105u8, 115u8, 104u8, 111u8, 112u8],
        PieceKind::Rook => seq![82u8, 111u8, 111u8, 107u8],
        PieceKind::Queen => seq![81u8, 117u8, 101u8, 101u8, 110u8],
        PieceKind::King => seq![75u8, 105u8, 110u8, 103u8],
    }
}

/// The promotion field: `None`, or `Some(` piece name `)`.
pub open spec fn promotion_code_of(p: Option<PieceKind>) -> Seq<u8> {
    match p {
        None => seq![78u8, 111u8, 110u8, 101u8],
        Some(k) => seq![83u8, 111u8, 109u8, 101u8, 40u8] + piece_name_of(k) + seq![41u8],
    }
}

/// A chosen move in the boundary encoding: source square, destination
/// square and promotion field, separated by semicolons.
pub open spec fn move_code_of(m: Mv) -> Seq<u8> {
    square_code_of(m.from) + seq![59u8] + square_code_of(m.to) + seq![59u8]
        + promotion_code_of(m.promotion)
}

// ---------------------------------------------------------------------------
// Facts the engine needs about particular moves.
// ---------------------------------------------------------------------------

/// What the rules engine guarantees of every legal move it hands out on a
/// sane board: the squares are on the board, a piece of the side to move
/// stands on the source square, the destination never holds a king (a
/// sane position never has the side not to move already in check), and a
/// promotion piece is one a pawn may actually become.
pub open spec fn move_ok(b: chess::Board, m: Mv) -> bool {
    &&& m.from < 64
    &&& m.to < 64
    &&& piece_at(b, m.from) is Some
    &&& piece_at(b, m.to) != Some(PieceKind::King)
    &&& m.promotion != Some(PieceKind::King)
    &&& m.promotion != Some(PieceKind::Pawn)
}

/// What the rules engine guarantees of the null move: it moves no piece,
/// so every piece count is kept, with own and opponent swapped along with
/// the side to move.
pub open spec fn null_keeps_material(b: chess::Board) -> bool {
    &&& forall|k: PieceKind| count_of(null_of(b), true, k) == count_of(b, false, k)
    &&& forall|k: PieceKind| count_of(null_of(b), false, k) == count_of(b, true, k)
}

} // verus!
