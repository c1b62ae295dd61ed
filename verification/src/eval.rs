//! The static position evaluator, verified against `model::eval_of`.

use vstd::prelude::*;

use crate::model::CHECK_SCORE;
use crate::model::SCAN_SEED;
use crate::model::check_scan;
use crate::model::eval_of;
use crate::model::board_ok;
use crate::model::game_over_of;
use crate::model::in_check_of;
use crate::model::material_of;
use crate::model::mobility_of;
use crate::model::moves_of;
use crate::model::status_of;
use crate::model::valid_board;
use crate::model::GameStatus;
use crate::model::PieceKind;
use crate::rules::apply_move;
use crate::rules::get_in_check;
use crate::rules::get_status;
use crate::rules::legal_moves;
use crate::rules::null_move;
use crate::rules::piece_count;

verus! {

/// Material difference from the perspective of the side to move, weighted
/// by the standard piece values.
pub fn score_pieces_count(b: chess::Board) -> (r: i64)
    ensures
        r == material_of(b),
        -1344 <= r <= 1344,
{
    let own_p = piece_count(&b, true, PieceKind::Pawn) as i64;
    let opp_p = piece_count(&b, false, PieceKind::Pawn) as i64;
    let own_n = piece_count(&b, true, PieceKind::Knight) as i64;
    let opp_n = piece_count(&b, false, PieceKind::Knight) as i64;
    let own_b = piece_count(&b, true, PieceKind::Bishop) as i64;
    let opp_b = piece_count(&b, false, PieceKind::Bishop) as i64;
    let own_r = piece_count(&b, true, PieceKind::Rook) as i64;
    let opp_r = piece_count(&b, false, PieceKind::Rook) as i64;
    let own_q = piece_count(&b, true, PieceKind::Queen) as i64;
    let opp_q = piece_count(&b, false, PieceKind::Queen) as i64;
    (own_p - opp_p) * 1 + (own_n - opp_n) * 3 + (own_b - opp_b) * 3 + (own_r - opp_r) * 5 + (
    own_q - opp_q) * 9
}

/// Mobility difference from the perspective of the side to move: own legal
/// move count minus the opponent's on the null-moved board.  The side to
/// move must not be in check, since passing the move is illegal in check.
pub fn score_moves_count(b: chess::Board) -> (r: i64)
    requires
        valid_board(b),
        !in_check_of(b),
    ensures
        r == mobility_of(b),
        -4608 <= r <= 4608,
{
    let own = legal_moves(&b);
    let flipped = null_move(&b);
    proof {
        assert(board_ok(flipped));
    }
    let opp = legal_moves(&flipped);
    (own.len() as i64) - (opp.len() as i64)
}

/// The score of a finished game: the mate sentinel offset by the remaining
/// depth for checkmate, exactly zero for stalemate.
pub fn evaluate_game_over(b: chess::Board, depth: i8) -> (r: i64)
    requires
        board_ok(b),
        status_of(b) != GameStatus::Ongoing,
    ensures
        r == game_over_of(b, depth as int),
        -10000128 <= r <= 0,
{
    match get_status(&b) {
        GameStatus::Checkmate => -10000000 - (depth as i64),
        GameStatus::Stalemate => 0,
        GameStatus::Ongoing => {
            proof {
                assert(false);
            }
            0
        },
    }
}

/// Static evaluation of a position from the perspective of the side to
/// move.  Terminal status is checked first and scores by the terminal
/// rule at the remaining `depth`; quiet positions score material and
/// mobility; in check, one ply of replies is scanned instead, `fuel`
/// bounding how long a chain of consecutive checks the scan may follow.
pub fn evaluate_position(b: chess::Board, depth: i8, fuel: u8) -> (r: i64)
    requires
        valid_board(b),
    ensures
        r == eval_of(b, depth as int, fuel as nat),
        -SCAN_SEED <= r <= SCAN_SEED,
    decreases fuel as int, 1int, 0int,
{
    let status = get_status(&b);
    if status != GameStatus::Ongoing {
        return evaluate_game_over(b, depth);
    }
    if get_in_check(&b) {
        if fuel == 0 {
            -CHECK_SCORE
        } else {
            evaluate_out_of_check(b, depth, fuel - 1)
        }
    } else {
        let material = score_pieces_count(b);
        let mobility = score_moves_count(b);
        material * 100 + mobility
    }
}

/// The in-check reply scan: the minimum over all legal replies of the
/// reply's negated evaluation — the reply worst for the side to move, as
/// a check-safety correction.  The fold starts above every reachable
/// score, so on the positions the evaluator scans (in check, at least
/// one reply) the minimum is over the replies alone.
pub fn evaluate_out_of_check(b: chess::Board, depth: i8, fuel: u8) -> (r: i64)
    requires
        valid_board(b),
    ensures
        r == check_scan(b, depth as int, fuel as nat, 0, SCAN_SEED as int),
        -SCAN_SEED <= r <= SCAN_SEED,
    decreases fuel as int + 1, 0int, 0int,
{
    let moves = legal_moves(&b);
    let mut worst: i64 = SCAN_SEED;
    let mut i: usize = 0;
    while i < moves.len()
        invariant
            valid_board(b),
            moves@ == moves_of(b),
            0 <= i <= moves@.len(),
            -SCAN_SEED <= worst <= SCAN_SEED,
            check_scan(b, depth as int, fuel as nat, 0, SCAN_SEED as int) == check_scan(
                b,
                depth as int,
                fuel as nat,
                i as int,
                worst as int,
            ),
        decreases moves@.len() - i,
    {
        proof {
            assert(moves_of(b).contains(moves@[i as int]));
        }
        let child = apply_move(&b, &moves[i]);
        proof {
            assert(valid_board(child));
        }
        let score = -evaluate_position(child, depth, fuel);
        if score < worst {
            worst = score;
        }
        i += 1;
    }
    worst
}

} // verus!
