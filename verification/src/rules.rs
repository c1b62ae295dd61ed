//! The trusted boundary to the external rules engine (the `chess` crate).
//!
//! Everything the engine knows about the rules of chess enters through the
//! wrappers in this module.  Each wrapper makes one query of the `chess`
//! crate and states what that query returns in terms of the uninterpreted
//! functions of `model`; nothing else in the crate is trusted.

use vstd::prelude::*;

use crate::model::GameStatus;
use crate::model::Mv;
use crate::model::PieceKind;
use crate::model::count_of;
use crate::model::in_check_of;
use crate::model::move_ok;
use crate::model::moves_of;
use crate::model::after_of;
use crate::model::board_ok;
use crate::model::null_of;
use crate::model::piece_at;
use crate::model::sane_of;
use crate::model::status_of;

verus! {

/// The external board type: opaque to the engine, which reads it only
/// through the wrappers below.
#[verifier::external_type_specification]
#[verifier::external_body]
pub struct ExBoard(chess::Board);

/// The external piece type; it only ever crosses the boundary inside the
/// converters below.
#[verifier::external_type_specification]
#[verifier::external_body]
pub struct ExPiece(chess::Piece);

/// The external move type; like `ExPiece` it only ever crosses the
/// boundary inside the converters below.
#[verifier::external_type_specification]
#[verifier::external_body]
pub struct ExChessMove(chess::ChessMove);

/// Converter: a `chess::Piece` variant to the engine's own piece kind.
#[verifier::external_body]
fn kind_from_piece(p: chess::Piece) -> PieceKind {
    match p {
        chess::Piece::Pawn => PieceKind::Pawn,
        chess::Piece::Knight => PieceKind::Knight,
        chess::Piece::Bishop => PieceKind::Bishop,
        chess::Piece::Rook => PieceKind::Rook,
        chess::Piece::Queen => PieceKind::Queen,
        chess::Piece::King => PieceKind::King,
    }
}

/// Converter: the engine's piece kind to the matching `chess::Piece`.
#[verifier::external_body]
fn piece_from_kind(k: PieceKind) -> chess::Piece {
    match k {
        PieceKind::Pawn => chess::Piece::Pawn,
        PieceKind::Knight => chess::Piece::Knight,
        PieceKind::Bishop => chess::Piece::Bishop,
        PieceKind::Rook => chess::Piece::Rook,
        PieceKind::Queen => chess::Piece::Queen,
        PieceKind::King => chess::Piece::King,
    }
}

/// Converter: a `chess::ChessMove` to the engine's move type, squares as
/// indices.
#[verifier::external_body]
fn mv_from_move(m: chess::ChessMove) -> Mv {
    Mv {
        from: m.get_source().to_index() as u8,
        to: m.get_dest().to_index() as u8,
        promotion: m.get_promotion().map(kind_from_piece),
    }
}

/// Relies on `MoveGen::new_legal`: it enumerates exactly the legal moves
/// of the position, in a fixed order determined by the board alone.  The
/// generator keeps one destination set per moving piece, plus up to two
/// more for en-passant, in a fixed list of 18 slots with an unchecked
/// push, so the board must be within the piece budget; 18 sets of at
/// most 64 destinations and 4 promotions each bound the move count.  On
/// a sane board legality places a piece of the side to move on each
/// source square, never targets a king (the side not to move is never
/// already in check), and promotes a pawn only to knight, bishop, rook
/// or queen.
#[verifier::external_body]
pub fn legal_moves(b: &chess::Board) -> (r: Vec<Mv>)
    requires
        board_ok(*b),
        sane_of(*b),
    ensures
        r@ == moves_of(*b),
        r@.len() <= 4608,
        forall|i: int| 0 <= i < r@.len() ==> move_ok(*b, #[trigger] r@[i]),
{
    chess::MoveGen::new_legal(b).map(mv_from_move).collect()
}

/// Relies on `Board::status`: ongoing when a legal move exists, otherwise
/// checkmate or stalemate by whether the side to move is in check.  It
/// runs the move generator, so the board must be within the piece
/// budget.
#[verifier::external_body]
pub fn get_status(b: &chess::Board) -> (r: GameStatus)
    requires
        board_ok(*b),
    ensures
        r == status_of(*b),
{
    match b.status() {
        chess::BoardStatus::Ongoing => GameStatus::Ongoing,
        chess::BoardStatus::Checkmate => GameStatus::Checkmate,
        chess::BoardStatus::Stalemate => GameStatus::Stalemate,
    }
}

/// Relies on `Board::checkers`: nonempty exactly when the side to move is
/// in check.
#[verifier::external_body]
pub fn get_in_check(b: &chess::Board) -> (r: bool)
    ensures
        r == in_check_of(*b),
{
    *b.checkers() != chess::EMPTY
}

/// Relies on `Board::is_sane`: the rules engine's own consistency check,
/// a function of the board alone.
#[verifier::external_body]
pub fn is_sane_board(b: &chess::Board) -> (r: bool)
    ensures
        r == sane_of(*b),
{
    b.is_sane()
}

/// Relies on `Board::piece_on`: the kind of the piece on the square, of
/// either colour, or `None` for an empty square.
#[verifier::external_body]
pub fn piece_on(b: &chess::Board, sq: u8) -> (r: Option<PieceKind>)
    requires
        sq < 64,
    ensures
        r == piece_at(*b, sq),
{
    b.piece_on(chess::ALL_SQUARES[sq as usize]).map(kind_from_piece)
}

/// Relies on `Board::make_move_new`: applying a legal move yields the
/// resulting position.  The move must be legal for the board and the
/// board sane — on an insane board a legal move can capture the king,
/// on which the call does not return normally.  A legal move leaves the
/// mover out of check and every other sanity invariant intact, so the
/// result is sane again; and no move adds a piece to either side, so the
/// piece budget is kept.
#[verifier::external_body]
pub fn apply_move(b: &chess::Board, m: &Mv) -> (r: chess::Board)
    requires
        moves_of(*b).contains(*m),
        sane_of(*b),
    ensures
        r == after_of(*b, *m),
        sane_of(r),
        board_ok(*b) ==> board_ok(r),
{
    b.make_move_new(chess::ChessMove::new(
        chess::ALL_SQUARES[m.from as usize],
        chess::ALL_SQUARES[m.to as usize],
        m.promotion.map(piece_from_kind),
    ))
}

/// Relies on `Board::null_move`: when the side to move is not in check it
/// returns the same position with only the side to move flipped (and any
/// en-passant square cleared), so every piece stays where it was and the
/// two sides' piece counts swap; a sane board stays sane, the new side
/// not to move being exactly the side just checked to be out of check.
#[verifier::external_body]
pub fn null_move(b: &chess::Board) -> (r: chess::Board)
    requires
        !in_check_of(*b),
    ensures
        r == null_of(*b),
        sane_of(*b) ==> sane_of(r),
        forall|k: PieceKind| #[trigger] count_of(r, true, k) == count_of(*b, false, k),
        forall|k: PieceKind| #[trigger] count_of(r, false, k) == count_of(*b, true, k),
{
    b.null_move().unwrap()
}

/// Relies on `Board::color_combined`, `Board::pieces`, the bitboard
/// intersection and `BitBoard::popcnt`: how many pieces of one kind the
/// side to move (`own`) or its opponent has; a 64-square board holds at
/// most 64.
#[verifier::external_body]
pub fn piece_count(b: &chess::Board, own: bool, k: PieceKind) -> (r: u32)
    ensures
        r == count_of(*b, own, k),
        r <= 64,
{
    let color = if own {
        b.side_to_move()
    } else {
        !b.side_to_move()
    };
    (b.color_combined(color) & b.pieces(piece_from_kind(k))).popcnt()
}

} // verus!
