//! The rule engine behind the client: the position, who is to move, which
//! moves are legal, and how a move changes the position. All of it is the
//! engine's; this module states what the client relies on.

use crate::pieces::{
    is_move_text, notation, MoveDescriptor, PieceInfo, PieceType, Placed, Side, Square,
};
use shogai::board::Board;
use shogai::piece::Color as EngineColor;
use shogai::piece::PieceType as EngineKind;
use shogai::position::Position;
use vstd::prelude::*;

verus! {

#[verifier::external_type_specification]
#[verifier::external_body]
pub struct ExBoard(Board);

// The pieces of a position, on the board and in the reserves, in the order in
// which the engine walks them.
pub uninterp spec fn board_pieces(b: Board) -> Seq<Placed>;

// The side whose turn it is.
pub uninterp spec fn board_turn(b: Board) -> Side;

// Whether the engine accepts the move written as `text` in the position.
pub uninterp spec fn accepts(b: Board, text: Seq<char>) -> bool;

// Whether the side to move has lost.
pub uninterp spec fn finished(b: Board) -> bool;

/// The first piece of `s` that stands on `sq`.
pub open spec fn first_at(s: Seq<Placed>, sq: Square) -> Option<PieceInfo>
    decreases s.len(),
{
    if s.len() == 0 {
        None
    } else if s[0].square == Some(sq) {
        Some(s[0].piece)
    } else {
        first_at(s.drop_first(), sq)
    }
}

/// What stands on `sq` in the position `b`.
pub open spec fn occupant_of(b: Board, sq: Square) -> Option<PieceInfo> {
    first_at(board_pieces(b), sq)
}

/// Whether `p` is a piece of type `kind` in the reserve of `side`.
pub open spec fn in_reserve_of(p: Placed, side: Side, kind: PieceType) -> bool {
    p.square is None && p.piece.side == side && p.piece.kind == kind
}

/// How many pieces of `s` are pieces of type `kind` in the reserve of `side`.
pub open spec fn reserve_count_in(s: Seq<Placed>, side: Side, kind: PieceType) -> nat
    decreases s.len(),
{
    if s.len() == 0 {
        0
    } else {
        reserve_count_in(s.drop_last(), side, kind) + if in_reserve_of(s.last(), side, kind) {
            1nat
        } else {
            0nat
        }
    }
}

/// How many pieces of type `kind` the reserve of `side` holds in the position `b`.
pub open spec fn reserve_count(b: Board, side: Side, kind: PieceType) -> nat {
    reserve_count_in(board_pieces(b), side, kind)
}

/// Relies on `Board::get_color`, which returns the side to move.
#[verifier::external_body]
pub(crate) fn side_to_move(b: &Board) -> (r: Side)
    ensures
        r == board_turn(*b),
{
    match b.get_color() {
        EngineColor::Black => Side::Black,
        EngineColor::White => Side::White,
    }
}

/// Relies on `Board::iter`, which yields every piece of the position, those
/// in the reserves with no position.
#[verifier::external_body]
pub(crate) fn pieces(b: &Board) -> (r: Vec<Placed>)
    ensures
        r@ == board_pieces(*b),
{
    b.iter().map(|p| Placed {
        piece: PieceInfo {
            kind: match p.piecetype {
                EngineKind::Pawn => PieceType::Pawn, EngineKind::King => PieceType::King,
                EngineKind::Rook => PieceType::Rook, EngineKind::Bishop => PieceType::Bishop,
                EngineKind::Gold => PieceType::Gold, EngineKind::Silver => PieceType::Silver,
                EngineKind::Knight => PieceType::Knight, EngineKind::Lance => PieceType::Lance,
            },
            side: match p.color { EngineColor::Black => Side::Black, EngineColor::White => Side::White },
            promoted: p.promoted,
        },
        square: p.position.map(|q| Square { index: q.0 }),
    }).collect()
}

/// Relies on the `Display` of `shogai::movement::Movement`: the piece letter,
/// then `*` and the destination for a drop, or the start, `-` and the
/// destination, with `+` when promoting. Squares below 81 print as a column
/// digit and a row letter.
#[verifier::external_body]
pub(crate) fn move_text(m: &MoveDescriptor) -> (r: String)
    requires
        m.valid(),
    ensures
        r@ == notation(*m),
{
    shogai::movement::Movement {
        piecetype: match m.kind {
            PieceType::Pawn => EngineKind::Pawn, PieceType::King => EngineKind::King,
            PieceType::Rook => EngineKind::Rook, PieceType::Bishop => EngineKind::Bishop,
            PieceType::Gold => EngineKind::Gold, PieceType::Silver => EngineKind::Silver,
            PieceType::Knight => EngineKind::Knight, PieceType::Lance => EngineKind::Lance,
        },
        start: m.start.map(|s| Position(s.index)),
        end: Position(m.end.index),
        promotion: m.promotion,
        force_capture: false, withdraw: false, restart: false,
    }.to_string()
}

/// Relies on `Board::check_move`, which returns `Ok` exactly for the moves
/// that the engine accepts in the position. It is only handed well-formed
/// move texts, which its parsing steps read without panicking.
#[verifier::external_body]
pub(crate) fn is_legal(b: &Board, text: &String) -> (r: bool)
    requires
        is_move_text(text@),
    ensures
        r == accepts(*b, text@),
{
    b.check_move(text).is_ok()
}

/// Relies on `Board::play_move_unchecked`, which returns the position after
/// an accepted move, with the turn passed to the other side. A move text is
/// never `withdraw` or `restart`, the two texts that keep the turn.
#[verifier::external_body]
pub(crate) fn play(b: &Board, text: &String) -> (r: Board)
    requires
        is_move_text(text@),
        accepts(*b, text@),
    ensures
        board_turn(r) == board_turn(*b).opposite_spec(),
{
    b.play_move_unchecked(text)
}

/// Relies on `Board::game_over`, which tells whether the side to move has lost.
#[verifier::external_body]
pub(crate) fn game_over(b: &Board) -> (r: bool)
    ensures
        r == finished(*b),
{
    b.game_over()
}

/// What stands on `sq`: the first piece of the position found there, in the
/// engine's order, as `Board::is_occupied_by` reports it.
pub fn occupant_at(b: &Board, sq: Square) -> (r: Option<PieceInfo>)
    ensures
        r == occupant_of(*b, sq),
{
    let all = pieces(b);
    let mut i: usize = 0;
    assert(all@.skip(0) =~= all@);
    while i < all.len()
        invariant
            0 <= i <= all.len(),
            all@ == board_pieces(*b),
            first_at(all@, sq) == first_at(all@.skip(i as int), sq),
        decreases all.len() - i,
    {
        assert(all@.skip(i as int).drop_first() =~= all@.skip(i + 1));
        if all[i].square == Some(sq) {
            return Some(all[i].piece);
        }
        i = i + 1;
    }
    assert(all@.skip(i as int).len() == 0);
    None
}

/// Whether the reserve of `side` holds a piece of type `kind` in the position `b`.
pub fn reserve_holds(b: &Board, side: Side, kind: PieceType) -> (r: bool)
    ensures
        r == (reserve_count(*b, side, kind) > 0),
{
    let all = pieces(b);
    let mut found = false;
    let mut i: usize = 0;
    while i < all.len()
        invariant
            0 <= i <= all.len(),
            all@ == board_pieces(*b),
            found == (reserve_count_in(all@.take(i as int), side, kind) > 0),
        decreases all.len() - i,
    {
        let p = all[i];
        assert(all@.take(i + 1).drop_last() =~= all@.take(i as int));
        if p.square.is_none() && p.piece.side == side && p.piece.kind == kind {
            found = true;
        }
        i = i + 1;
    }
    assert(all@.take(i as int) =~= all@);
    found
}

} // verus!
