//! The boundary encoding of a chosen move: source square, destination
//! square and promotion field as ASCII bytes, semicolon-separated, e.g.
//! `e2;e4;None` or `g7;g8;Some(Queen)`.

use vstd::prelude::*;

use crate::model::Mv;
use crate::model::PieceKind;
use crate::model::move_code_of;
use crate::model::piece_name_of;

verus! {

/// Appends the ASCII name of a piece kind.
fn push_piece_name(v: &mut Vec<u8>, k: PieceKind)
    ensures
        final(v)@ == old(v)@ + piece_name_of(k),
{
    match k {
        PieceKind::Pawn => {
            v.push(80);
            v.push(97);
            v.push(119);
            v.push(110);
        },
        PieceKind::Knight => {
            v.push(75);
            v.push(110);
            v.push(105);
            v.push(103);
            v.push(104);
            v.push(116);
        },
        PieceKind::Bishop => {
            v.push(66);
            v.push(105);
            v.push(115);
            v.push(104);
            v.push(111);
            v.push(112);
        },
        PieceKind::Rook => {
            v.push(82);
            v.push(111);
            v.push(111);
            v.push(107);
        },
        PieceKind::Queen => {
            v.push(81);
            v.push(117);
            v.push(101);
            v.push(101);
            v.push(110);
        },
        PieceKind::King => {
            v.push(75);
            v.push(105);
            v.push(110);
            v.push(103);
        },
    }
    proof {
        assert(v@ =~= old(v)@ + piece_name_of(k));
    }
}

/// A chosen move in the boundary encoding, as bytes.
pub fn move_bytes(m: Mv) -> (r: Vec<u8>)
    ensures
        r@ == move_code_of(m),
{
    let mut v: Vec<u8> = Vec::new();
    v.push(97 + m.from % 8);
    v.push(49 + m.from / 8);
    v.push(59);
    v.push(97 + m.to % 8);
    v.push(49 + m.to / 8);
    v.push(59);
    match m.promotion {
        None => {
            v.push(78);
            v.push(111);
            v.push(110);
            v.push(101);
        },
        Some(k) => {
            v.push(83);
            v.push(111);
            v.push(109);
            v.push(101);
            v.push(40);
            push_piece_name(&mut v, k);
            v.push(41);
        },
    }
    proof {
        assert(v@ =~= move_code_of(m));
    }
    v
}

} // verus!
