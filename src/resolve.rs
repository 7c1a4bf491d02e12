//! The interaction rules on plain values: what a click selects, which two
//! candidate moves a completed click pair builds, and which one is committed.

use crate::pieces::{MoveDescriptor, PieceInfo, PieceType, Side, Square};
use vstd::prelude::*;

verus! {

/// Where a pointer release landed.
#[derive(Clone, Copy, Debug, PartialEq, Eq, Structural)]
pub enum Target {
    /// A cell of the board.
    OnBoard(Square),
    /// The reserve slot of a piece type.
    Reserve(PieceType),
    /// Neither.
    Nothing,
}

impl Target {
    pub open spec fn valid(self) -> bool {
        match self {
            Target::OnBoard(sq) => sq.valid(),
            _ => true,
        }
    }
}

/// A selected piece: one of the side to move on the board, or one of its
/// reserve, or none.
#[derive(Clone, Copy, Debug, PartialEq, Eq, Structural)]
pub enum Selection {
    Empty,
    OnBoard(Square, PieceType),
    FromReserve(PieceType),
}

impl Selection {
    /// The square whose piece is shown under the pointer instead of in place.
    pub open spec fn hidden_spec(self) -> Option<Square> {
        match self {
            Selection::OnBoard(sq, _) => Some(sq),
            _ => None,
        }
    }

    /// The square whose piece is lifted, hidden from the static board.
    pub fn hidden(&self) -> (r: Option<Square>)
        ensures
            r == self.hidden_spec(),
    {
        match self {
            Selection::OnBoard(sq, _) => Some(*sq),
            _ => None,
        }
    }

    /// The piece type that follows the pointer.
    pub open spec fn dragged_spec(self) -> Option<PieceType> {
        match self {
            Selection::OnBoard(_, k) => Some(k),
            Selection::FromReserve(k) => Some(k),
            Selection::Empty => None,
        }
    }

    /// The piece type that follows the pointer, if any.
    pub fn dragged(&self) -> (r: Option<PieceType>)
        ensures
            r == self.dragged_spec(),
    {
        match self {
            Selection::OnBoard(_, k) => Some(*k),
            Selection::FromReserve(k) => Some(*k),
            Selection::Empty => None,
        }
    }
}

/// What a release on `target` selects, given what stands on the square (for a
/// board target), the side to move, and whether that side's reserve holds a
/// piece of the slot's type (for a reserve target).
pub open spec fn select_spec(
    target: Target,
    occupant: Option<PieceInfo>,
    to_move: Side,
    reserve_held: bool,
) -> Selection {
    match target {
        Target::OnBoard(sq) => match occupant {
            Some(p) => if p.side == to_move {
                Selection::OnBoard(sq, p.kind)
            } else {
                Selection::Empty
            },
            None => Selection::Empty,
        },
        Target::Reserve(k) => if reserve_held {
            Selection::FromReserve(k)
        } else {
            Selection::Empty
        },
        Target::Nothing => Selection::Empty,
    }
}

/// Selects the piece under a release: only a piece of the side to move, and
/// a reserve slot only while that reserve holds such a piece.
pub fn select(target: Target, occupant: Option<PieceInfo>, to_move: Side, reserve_held: bool) -> (r:
    Selection)
    ensures
        r == select_spec(target, occupant, to_move, reserve_held),
{
    match target {
        Target::OnBoard(sq) => match occupant {
            Some(p) => if p.side == to_move {
                Selection::OnBoard(sq, p.kind)
            } else {
                Selection::Empty
            },
            None => Selection::Empty,
        },
        Target::Reserve(k) => if reserve_held {
            Selection::FromReserve(k)
        } else {
            Selection::Empty
        },
        Target::Nothing => Selection::Empty,
    }
}

/// The two readings of one completed click pair: without and with promotion.
#[derive(Clone, Copy, Debug, PartialEq, Eq, Structural)]
pub struct Candidates {
    pub plain: MoveDescriptor,
    pub promoted: MoveDescriptor,
}

/// The candidates built when `active` holds a piece and the release landed
/// on a board cell; `None` otherwise.
pub open spec fn candidates_spec(active: Selection, target: Target) -> Option<Candidates> {
    match target {
        Target::OnBoard(end) => {
            let source: Option<(PieceType, Option<Square>)> = match active {
                Selection::OnBoard(s, k) => Some((k, Some(s))),
                Selection::FromReserve(k) => Some((k, None)),
                Selection::Empty => None,
            };
            match source {
                Some((k, start)) => {
                    let plain = MoveDescriptor { kind: k, start, end, promotion: false };
                    Some(Candidates { plain, promoted: MoveDescriptor { promotion: true, ..plain } })
                },
                None => None,
            }
        },
        _ => None,
    }
}

/// Builds the plain and the promoting move from the active selection to the
/// released cell.
pub fn candidates(active: Selection, target: Target) -> (r: Option<Candidates>)
    ensures
        r == candidates_spec(active, target),
{
    match target {
        Target::OnBoard(end) => {
            let source: Option<(PieceType, Option<Square>)> = match active {
                Selection::OnBoard(s, k) => Some((k, Some(s))),
                Selection::FromReserve(k) => Some((k, None)),
                Selection::Empty => None,
            };
            match source {
                Some((k, start)) => {
                    let plain = MoveDescriptor { kind: k, start, end, promotion: false };
                    Some(Candidates { plain, promoted: MoveDescriptor { promotion: true, ..plain } })
                },
                None => None,
            }
        },
        _ => None,
    }
}

/// How a pair of probe results is resolved.
#[derive(Clone, Copy, Debug, PartialEq, Eq, Structural)]
pub enum Decision {
    CommitPlain,
    CommitPromoted,
    Ask,
    Abort,
}

pub open spec fn decide_spec(legal_plain: bool, legal_promoted: bool) -> Decision {
    if legal_plain && !legal_promoted {
        Decision::CommitPlain
    } else if !legal_plain && legal_promoted {
        Decision::CommitPromoted
    } else if legal_plain && legal_promoted {
        Decision::Ask
    } else {
        Decision::Abort
    }
}

/// The promotion policy: commit the one legal reading, ask when both are
/// legal, give up when neither is.
pub fn decide(legal_plain: bool, legal_promoted: bool) -> (r: Decision)
    ensures
        r == decide_spec(legal_plain, legal_promoted),
{
    if legal_plain && !legal_promoted {
        Decision::CommitPlain
    } else if !legal_plain && legal_promoted {
        Decision::CommitPromoted
    } else if legal_plain && legal_promoted {
        Decision::Ask
    } else {
        Decision::Abort
    }
}

/// The user's answer to the promotion prompt; `Dismissed` when the prompt was
/// closed without picking a button.
#[derive(Clone, Copy, Debug, PartialEq, Eq, Structural)]
pub enum PromptAnswer {
    Promote,
    DoNotPromote,
    Dismissed,
}

pub open spec fn pick_spec(c: Candidates, answer: PromptAnswer) -> MoveDescriptor {
    match answer {
        PromptAnswer::DoNotPromote => c.plain,
        _ => c.promoted,
    }
}

/// The reading the user picked; a dismissed prompt promotes.
pub fn pick(c: Candidates, answer: PromptAnswer) -> (r: MoveDescriptor)
    ensures
        r == pick_spec(c, answer),
{
    match answer {
        PromptAnswer::DoNotPromote => c.plain,
        _ => c.promoted,
    }
}

pub open spec fn winner_spec(over: bool, to_move: Side) -> Option<Side> {
    if over {
        Some(to_move.opposite_spec())
    } else {
        None
    }
}

/// The winner once the game is over: the side that is not to move.
pub fn winner(over: bool, to_move: Side) -> (r: Option<Side>)
    ensures
        r == winner_spec(over, to_move),
{
    if over {
        Some(to_move.opposite())
    } else {
        None
    }
}

} // verus!
