//! Plain values for sides, piece types, squares and move descriptors, and the
//! move notation that the engine reads.

use vstd::prelude::*;

verus! {

/// Number of cells of the board.
pub const BOARD_CELLS: u16 = 81;

/// The two players. The first player (`White`) starts at the top rows.
#[derive(Clone, Copy, Debug, PartialEq, Eq, Structural)]
pub enum Side {
    Black,
    White,
}

impl Side {
    pub open spec fn opposite_spec(self) -> Side {
        match self {
            Side::Black => Side::White,
            Side::White => Side::Black,
        }
    }

    /// The other player.
    pub fn opposite(self) -> (r: Side)
        ensures
            r == self.opposite_spec(),
    {
        match self {
            Side::Black => Side::White,
            Side::White => Side::Black,
        }
    }
}

/// The kinds of pieces, promoted or not.
#[derive(Clone, Copy, Debug, PartialEq, Eq, Structural)]
pub enum PieceType {
    Pawn,
    King,
    Rook,
    Bishop,
    Gold,
    Silver,
    Knight,
    Lance,
}

/// One of the 81 cells, by ordinal: row `index / 9`, column `index % 9`.
#[derive(Clone, Copy, Debug, PartialEq, Eq, Structural)]
pub struct Square {
    pub index: u16,
}

impl Square {
    pub open spec fn valid(self) -> bool {
        self.index < BOARD_CELLS
    }
}

/// What stands on an occupied square.
#[derive(Clone, Copy, Debug, PartialEq, Eq, Structural)]
pub struct PieceInfo {
    pub kind: PieceType,
    pub side: Side,
    pub promoted: bool,
}

/// A piece of the position: on a square, or in its owner's reserve (`None`).
#[derive(Clone, Copy, Debug, PartialEq, Eq, Structural)]
pub struct Placed {
    pub piece: PieceInfo,
    pub square: Option<Square>,
}

/// A move to submit to the engine: a drop when `start` is `None`.
#[derive(Clone, Copy, Debug, PartialEq, Eq, Structural)]
pub struct MoveDescriptor {
    pub kind: PieceType,
    pub start: Option<Square>,
    pub end: Square,
    pub promotion: bool,
}

impl MoveDescriptor {
    pub open spec fn valid(self) -> bool {
        &&& self.end.valid()
        &&& match self.start {
            Some(s) => s.valid(),
            None => true,
        }
    }
}

/// The letter that names a piece type in move notation.
pub open spec fn kind_letter(k: PieceType) -> char {
    match k {
        PieceType::Pawn => 'P',
        PieceType::King => 'K',
        PieceType::Rook => 'R',
        PieceType::Bishop => 'B',
        PieceType::Gold => 'G',
        PieceType::Silver => 'S',
        PieceType::Knight => 'N',
        PieceType::Lance => 'L',
    }
}

/// A square in notation: its column digit (`index % 9 + 1`), then its row
/// letter (`'a' + index / 9`).
pub open spec fn square_text(s: Square) -> Seq<char> {
    seq![
        seq!['1', '2', '3', '4', '5', '6', '7', '8', '9'][s.index as int % 9],
        seq!['a', 'b', 'c', 'd', 'e', 'f', 'g', 'h', 'i'][s.index as int / 9],
    ]
}

/// The text of a move: `P*5e` for a drop, `P5f-5g` for a move, with a
/// trailing `+` when it promotes. A drop carries no promotion mark.
pub open spec fn notation(m: MoveDescriptor) -> Seq<char> {
    match m.start {
        None => seq![kind_letter(m.kind), '*'] + square_text(m.end),
        Some(s) => seq![kind_letter(m.kind)] + square_text(s) + seq!['-'] + square_text(m.end)
            + if m.promotion {
            seq!['+']
        } else {
            Seq::empty()
        },
    }
}

/// Texts that some valid move descriptor writes.
pub open spec fn is_move_text(t: Seq<char>) -> bool {
    exists|m: MoveDescriptor| m.valid() && notation(m) == t
}

/// Two descriptors that differ in the promotion flag alone have the same text
/// exactly when they are drops.
pub proof fn lemma_promotion_mark(m: MoveDescriptor)
    ensures
        (notation(MoveDescriptor { promotion: true, ..m }) == notation(
            MoveDescriptor { promotion: false, ..m },
        )) <==> m.start is None,
{
    let p = MoveDescriptor { promotion: true, ..m };
    let q = MoveDescriptor { promotion: false, ..m };
    if m.start is Some {
        assert(notation(p).len() == 7);
        assert(notation(q).len() == 6);
    } else {
        assert(notation(p) =~= notation(q));
    }
}

} // verus!
