//! Screen geometry: a reserve strip above and below a square board, and the
//! mapping between pointer coordinates and cells or reserve slots.

use crate::pieces::{PieceType, Side, Square};
use vstd::prelude::*;

verus! {

/// Height of each reserve strip, in pixels.
pub const RESERVE_HEIGHT: i32 = 100;

/// Width of the window and of the board.
pub const BOARD_WIDTH: i32 = 603;

/// Height of the window: the board between the two strips.
pub const WINDOW_HEIGHT: i32 = 603 + 2 * 100;

/// Side of one cell.
pub const SQUARE_SIZE: i32 = 67;

/// Number of slots in a reserve strip.
pub const RESERVE_SLOTS: i32 = 7;

/// Vertical gap between stacked pieces of one reserve slot.
pub const STACK_SPACING: i32 = 10;

/// The cell under the point, counted from the top row, with columns mirrored
/// so that column 0 is at the right edge.
pub open spec fn square_at_spec(x: int, y: int) -> Option<Square> {
    if 0 <= x < BOARD_WIDTH && RESERVE_HEIGHT <= y < RESERVE_HEIGHT + BOARD_WIDTH {
        Some(
            Square {
                index: (8 - x / SQUARE_SIZE as int + 9 * ((y - RESERVE_HEIGHT) / SQUARE_SIZE as int))
                    as u16,
            },
        )
    } else {
        None
    }
}

/// Maps a pointer position to the board cell under it.
pub fn square_at(x: i32, y: i32) -> (r: Option<Square>)
    ensures
        r == square_at_spec(x as int, y as int),
        r matches Some(sq) ==> sq.valid(),
{
    if 0 <= x && x < BOARD_WIDTH && RESERVE_HEIGHT <= y && y < RESERVE_HEIGHT + BOARD_WIDTH {
        let column = x / SQUARE_SIZE;
        let row = (y - RESERVE_HEIGHT) / SQUARE_SIZE;
        assert(0 <= column <= 8 && 0 <= row <= 8);
        Some(Square { index: (8 - column + 9 * row) as u16 })
    } else {
        None
    }
}

/// The piece type whose reserve slot is `slot`, left to right.
pub open spec fn slot_kind(slot: int) -> Option<PieceType> {
    if slot == 0 {
        Some(PieceType::Pawn)
    } else if slot == 1 {
        Some(PieceType::Knight)
    } else if slot == 2 {
        Some(PieceType::Lance)
    } else if slot == 3 {
        Some(PieceType::Rook)
    } else if slot == 4 {
        Some(PieceType::Bishop)
    } else if slot == 5 {
        Some(PieceType::Gold)
    } else if slot == 6 {
        Some(PieceType::Silver)
    } else {
        None
    }
}

/// The slot of a piece type in a reserve strip; the king has none.
pub open spec fn kind_slot(k: PieceType) -> int {
    match k {
        PieceType::Pawn => 0,
        PieceType::Knight => 1,
        PieceType::Lance => 2,
        PieceType::Rook => 3,
        PieceType::Bishop => 4,
        PieceType::Gold => 5,
        PieceType::Silver => 6,
        PieceType::King => -1,
    }
}

pub open spec fn reserve_slot_at_spec(x: int, y: int) -> Option<PieceType> {
    if RESERVE_HEIGHT <= y <= WINDOW_HEIGHT - RESERVE_HEIGHT || x < 0 {
        None
    } else {
        slot_kind(x * RESERVE_SLOTS / BOARD_WIDTH as int)
    }
}

/// Maps a pointer position in either reserve strip to the piece type of the
/// slot under it.
pub fn reserve_slot_at(x: i32, y: i32) -> (r: Option<PieceType>)
    ensures
        r == reserve_slot_at_spec(x as int, y as int),
{
    if (RESERVE_HEIGHT <= y && y <= WINDOW_HEIGHT - RESERVE_HEIGHT) || x < 0 || x >= BOARD_WIDTH {
        proof {
            if x >= BOARD_WIDTH {
                let xi = x as int;
                assert(xi * 7 / 603 >= 7) by (nonlinear_arith)
                    requires
                        xi >= 603,
                ;
            }
        }
        return None;
    }
    let slot = x * RESERVE_SLOTS / BOARD_WIDTH;
    assert(0 <= slot < 7) by (nonlinear_arith)
        requires
            0 <= x < 603,
            slot == x * 7 / 603,
    ;
    if slot == 0 {
        Some(PieceType::Pawn)
    } else if slot == 1 {
        Some(PieceType::Knight)
    } else if slot == 2 {
        Some(PieceType::Lance)
    } else if slot == 3 {
        Some(PieceType::Rook)
    } else if slot == 4 {
        Some(PieceType::Bishop)
    } else if slot == 5 {
        Some(PieceType::Gold)
    } else {
        Some(PieceType::Silver)
    }
}

/// The side whose reserve strip holds the height `y`: the first player's at
/// the top, the second player's at the bottom.
pub fn side_strip_at(y: i32) -> (r: Option<Side>)
    ensures
        r == (if y <= RESERVE_HEIGHT {
            Some(Side::White)
        } else if y >= WINDOW_HEIGHT - RESERVE_HEIGHT {
            Some(Side::Black)
        } else {
            None
        }),
{
    if y <= RESERVE_HEIGHT {
        Some(Side::White)
    } else if y >= WINDOW_HEIGHT - RESERVE_HEIGHT {
        Some(Side::Black)
    } else {
        None
    }
}

/// The top-left corner of a cell on screen.
pub fn square_origin(sq: Square) -> (r: (i32, i32))
    requires
        sq.valid(),
    ensures
        r.0 == (8 - sq.index % 9) * SQUARE_SIZE,
        r.1 == sq.index / 9 * SQUARE_SIZE + RESERVE_HEIGHT,
{
    let column = (sq.index % 9) as i32;
    let row = (sq.index / 9) as i32;
    ((8 - column) * SQUARE_SIZE, row * SQUARE_SIZE + RESERVE_HEIGHT)
}

/// The top-left corner of the `count`-th stacked piece of type `kind` in the
/// reserve strip of `side`.
pub fn reserve_origin(kind: PieceType, side: Side, count: i32) -> (r: (i32, i32))
    requires
        kind != PieceType::King,
        0 <= count <= 1000,
    ensures
        r.0 == kind_slot(kind) * BOARD_WIDTH / RESERVE_SLOTS as int,
        r.1 == match side {
            Side::White => (count + 1) * STACK_SPACING,
            Side::Black => WINDOW_HEIGHT - SQUARE_SIZE - (count + 1) * STACK_SPACING,
        },
{
    let slot: i32 = match kind {
        PieceType::Pawn => 0,
        PieceType::Knight => 1,
        PieceType::Lance => 2,
        PieceType::Rook => 3,
        PieceType::Bishop => 4,
        PieceType::Gold => 5,
        _ => 6,
    };
    let y = match side {
        Side::White => (count + 1) * STACK_SPACING,
        Side::Black => WINDOW_HEIGHT - SQUARE_SIZE - (count + 1) * STACK_SPACING,
    };
    (slot * BOARD_WIDTH / RESERVE_SLOTS, y)
}

/// The top-left corner of the `i`-th light cell: row `i / 5`, column
/// `2 * (i % 5)` shifted by one on odd rows.
pub open spec fn light_cell(i: int) -> (int, int) {
    (((i / 5) % 2 + 2 * (i % 5)) * SQUARE_SIZE, (i / 5) * SQUARE_SIZE + RESERVE_HEIGHT)
}

/// The top-left corners of the light cells of the two-tone board, five per
/// row, starting at the first column on even rows and the second on odd ones.
pub fn light_cells() -> (r: Vec<(i32, i32)>)
    ensures
        r@.len() == 45,
        forall|i: int|
            0 <= i < 45 ==> (#[trigger] r@[i].0 as int, r@[i].1 as int) == light_cell(i),
{
    let mut cells: Vec<(i32, i32)> = Vec::new();
    let mut row: i32 = 0;
    while row < 9
        invariant
            0 <= row <= 9,
            cells@.len() == 5 * row,
            forall|i: int|
                0 <= i < 5 * row ==> (#[trigger] cells@[i].0 as int, cells@[i].1 as int)
                    == light_cell(i),
        decreases 9 - row,
    {
        let mut j: i32 = 0;
        while j < 5
            invariant
                0 <= row < 9,
                0 <= j <= 5,
                cells@.len() == 5 * row + j,
                forall|i: int|
                    0 <= i < 5 * row + j ==> (#[trigger] cells@[i].0 as int, cells@[i].1 as int)
                        == light_cell(i),
            decreases 5 - j,
        {
            let column = row % 2 + 2 * j;
            proof {
                let i = 5 * row + j;
                assert(i / 5 == row && i % 5 == j) by (nonlinear_arith)
                    requires
                        i == 5 * row + j,
                        0 <= j < 5,
                        0 <= row,
                ;
            }
            cells.push((column * SQUARE_SIZE, row * SQUARE_SIZE + RESERVE_HEIGHT));
            j = j + 1;
        }
        row = row + 1;
    }
    cells
}

} // verus!
