use std::str::FromStr;

use rust_bot::GameStatus;
use rust_bot::Mv;
use rust_bot::PieceKind;
use rust_bot::best_move;
use rust_bot::choose_move;
use rust_bot::evaluate_game_over;
use rust_bot::evaluate_position;
use rust_bot::move_bytes;
use rust_bot::rules::get_status;
use rust_bot::score_moves_count;
use rust_bot::score_pieces_count;

fn kind_of(p: chess::Piece) -> PieceKind {
    match p {
        chess::Piece::Pawn => PieceKind::Pawn,
        chess::Piece::Knight => PieceKind::Knight,
        chess::Piece::Bishop => PieceKind::Bishop,
        chess::Piece::Rook => PieceKind::Rook,
        chess::Piece::Queen => PieceKind::Queen,
        chess::Piece::King => PieceKind::King,
    }
}

fn mv(text: &str) -> Mv {
    let cm = chess::ChessMove::from_str(text).unwrap();
    Mv {
        from: cm.get_source().to_index() as u8,
        to: cm.get_dest().to_index() as u8,
        promotion: cm.get_promotion().map(kind_of),
    }
}

fn board(fen: &str) -> chess::Board {
    chess::Board::from_str(fen).unwrap()
}

const TEST_FENS: [&str; 5] = [
    "rnbqkbnr/pppppppp/8/8/8/8/PPPPPPPP/RNBQKBNR w KQkq - 0 1",
    "3r2k1/5ppp/1r6/8/8/1Q6/5PPP/6K1 w - - 0 1",
    "5qk1/5ppp/8/8/3N4/8/5PPP/5QK1 w - - 0 1",
    "4k3/8/8/8/8/8/PPPPPPPP/RNBQKBNR w KQ - 0 1",
    "6k1/5pbp/6p1/8/8/8/3PP3/4K3 b - - 0 1",
];

#[test]
fn test_count_score() {
    let expected_outputs: [i64; 5] = [0, -1, 3, 39, 4];
    for i in 0..TEST_FENS.len() {
        let score = score_pieces_count(board(TEST_FENS[i]));
        assert_eq!(score, expected_outputs[i]);
    }
}

#[test]
fn test_moves_score() {
    let expected_outputs: [i64; 5] = [0, -2, 8, 15, 9];
    for i in 0..TEST_FENS.len() {
        let score = score_moves_count(board(TEST_FENS[i]));
        assert_eq!(score, expected_outputs[i]);
    }
}

#[test]
fn test_best_move_depth_1() {
    let fens = [
        "8/8/8/5k2/2K5/8/8/2Q4r b - - 0 1",
        "8/6p1/7p/5kn1/8/PP6/QP6/K7 w - - 0 1",
        "6k1/8/1q5P/8/8/8/1Q1K4/8 w - - 0 1",
        "6k1/4bp2/1qp5/3p4/2R3n1/1NB5/1Q1P2PP/6RK b - - 0 1",
        "1q4k1/5pp1/7p/8/8/1Q2R3/7R/4K3 b - - 0 1",
        "5Q2/1k6/N7/PP6/1K4PP/8/8/8 w - - 1 64",
    ];
    let outs = ["h1c1", "a2b1", "b2g7", "g4f2", "b8h2", "f8b8"];
    for i in 0..fens.len() {
        assert_eq!(best_move(board(fens[i]), 1), mv(outs[i]));
    }
}

#[test]
fn test_best_move_depth_2() {
    let fens = [
        "8/8/8/5k2/2K5/8/8/2Q4r b - - 0 1",
        "6k1/4bp2/1qp5/3p4/2R3n1/1NB5/1Q1P2PP/6RK b - - 0 1",
        "1q4k1/2R2ppp/8/8/8/1Q6/8/4K3 b - - 0 1",
        "5Q2/1k6/N7/PP6/1K4PP/8/8/8 w - - 1 64",
    ];
    let outs = ["h1c1", "g4f2", "b8c7", "f8b8"];
    for i in 0..fens.len() {
        assert_eq!(best_move(board(fens[i]), 2), mv(outs[i]));
    }
}

#[test]
fn test_best_move_depth_3() {
    let fens = [
        "8/8/8/5k2/2K5/8/8/2Q4r b - - 0 1",
        "6k1/8/1q5P/8/8/8/1Q1K4/8 w - - 0 1",
        "6k1/4bp2/1qp5/3p4/2R3n1/1NB5/1Q1P2PP/6RK b - - 0 1",
        "7r/8/8/5k2/2K5/8/8/2Q5 b - - 0 1",
        "1q4k1/5pp1/7p/8/8/1Q2R3/7R/4K3 b - - 0 1",
        "5Q2/1k6/N7/PP6/1K4PP/8/8/8 w - - 1 64",
    ];
    let outs = ["h1c1", "b2g7", "g4f2", "h8c8", "b8h2", "f8b8"];
    for i in 0..fens.len() {
        assert_eq!(best_move(board(fens[i]), 3), mv(outs[i]));
    }
}

#[test]
fn test_avoid_statemate() {
    let fens = ["5Q2/2k5/8/1PN5/P1K3P1/8/7P/8 w - - 1 59"];
    let outs = ["a4a5"];
    for i in 0..fens.len() {
        assert_ne!(best_move(board(fens[i]), 3), mv(outs[i]));
    }
}

#[test]
fn test_eval_symmetry_on_flip() {
    // Evaluating a quiet position and its side-to-move flip gives negated
    // scores; none of these positions has an en-passant square.
    for fen in [
        TEST_FENS[0],
        TEST_FENS[1],
        TEST_FENS[2],
        TEST_FENS[4],
        "1q4k1/5pp1/7p/8/8/1Q2R3/7R/4K3 b - - 0 1",
    ] {
        let b = board(fen);
        let flipped = b.null_move().unwrap();
        assert_eq!(
            evaluate_position(flipped, 0, rust_bot::model::CHECK_FUEL),
            -evaluate_position(b, 0, rust_bot::model::CHECK_FUEL),
        );
    }
}

#[test]
fn test_material_delta_scenarios() {
    // Starting position: no imbalance.
    assert_eq!(score_pieces_count(board(TEST_FENS[0])), 0);
    // The side to move has an extra rook and no other imbalance.
    assert_eq!(
        score_pieces_count(board("4k3/8/8/8/8/8/8/R3K3 w - - 0 1")),
        5,
    );
    // The side to move is down a knight and a pawn.
    assert_eq!(
        score_pieces_count(board("1n2k3/pp6/8/8/8/8/P7/4K3 w - - 0 1")),
        -4,
    );
}

#[test]
fn test_mate_scores_order_by_depth() {
    // The same mated position scores more extremely for the mating side
    // when found with more depth left: mate in one beats mate in three.
    let mated = board("R5k1/5ppp/8/8/8/8/8/4K3 b - - 0 1");
    assert_eq!(mated.status(), chess::BoardStatus::Checkmate);
    let near = -evaluate_game_over(mated, 2);
    let far = -evaluate_game_over(mated, 0);
    assert!(near > far);
    assert!(near > 1_000_000);
}

#[test]
fn test_stalemate_scores_zero() {
    let stale = board("7k/5Q2/6K1/8/8/8/8/8 b - - 0 1");
    assert_eq!(stale.status(), chess::BoardStatus::Stalemate);
    assert_eq!(evaluate_game_over(stale, 3), 0);
}

#[test]
fn test_search_finds_forced_mate() {
    // A single-move forced checkmate is chosen at depth 1 over any
    // material-preserving alternative, even sacrificing the queen.
    let b = board("6k1/8/1q5P/8/8/8/1Q1K4/8 w - - 0 1");
    assert_eq!(best_move(b, 1), mv("b2g7"));
}

#[test]
fn test_driver_is_deterministic() {
    let fen = "6k1/4bp2/1qp5/3p4/2R3n1/1NB5/1Q1P2PP/6RK b - - 0 1";
    let first = best_move(board(fen), 2);
    let second = best_move(board(fen), 2);
    assert_eq!(first, second);
}

#[test]
fn test_choose_move_rejects_finished_games() {
    let stale = board("7k/5Q2/6K1/8/8/8/8/8 b - - 0 1");
    assert_eq!(choose_move(stale, 3), None);
    let ongoing = board(TEST_FENS[0]);
    assert_eq!(choose_move(ongoing, 0), None);
    assert!(choose_move(ongoing, 1).is_some());
}

#[test]
fn test_overfull_position_rejected() {
    // A parseable position with seventeen pieces per side exceeds the
    // piece budget the engine accepts, so it is refused before the move
    // generator ever runs on it.
    let overfull = board("nnnnknnn/nnnnnnnn/n7/8/8/N7/NNNNNNNN/NNNNKNNN w - - 0 1");
    assert_eq!(choose_move(overfull, 2), None);
    // The same position one knight lighter per side is within budget.
    let full = board("nnnnknnn/nnnnnnnn/8/8/8/8/NNNNNNNN/NNNNKNNN w - - 0 1");
    assert!(choose_move(full, 1).is_some());
}

#[test]
fn test_game_status_matches_rules_engine() {
    assert_eq!(get_status(&board(TEST_FENS[0])), GameStatus::Ongoing);
    assert_eq!(
        get_status(&board("R5k1/5ppp/8/8/8/8/8/4K3 b - - 0 1")),
        GameStatus::Checkmate,
    );
    assert_eq!(
        get_status(&board("7k/5Q2/6K1/8/8/8/8/8 b - - 0 1")),
        GameStatus::Stalemate,
    );
}

#[test]
fn test_move_bytes_plain_move() {
    let bytes = move_bytes(mv("e2e4"));
    assert_eq!(bytes, b"e2;e4;None".to_vec());
}

#[test]
fn test_move_bytes_promotion() {
    let bytes = move_bytes(Mv { from: 48, to: 56, promotion: Some(PieceKind::Queen) });
    assert_eq!(bytes, b"a7;a8;Some(Queen)".to_vec());
}
