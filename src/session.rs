//! One game in progress: the engine's position, the pending selection, and a
//! promotion question awaiting the user's answer. Each input cycle goes
//! through `Session::cycle`; the prompt's answer through `Session::answer`.

use crate::engine::{
    accepts, board_turn, finished, game_over, is_legal, move_text, occupant_at, occupant_of, play,
    reserve_count, reserve_holds, side_to_move,
};
use crate::pieces::{notation, MoveDescriptor, PieceType, Side, Square};
use crate::resolve::{
    candidates, candidates_spec, decide, decide_spec, pick, pick_spec, select, select_spec,
    winner, winner_spec, Candidates, Decision, PromptAnswer, Selection, Target,
};
use shogai::board::Board;
use vstd::prelude::*;

verus! {

/// What a cycle, or the answer to a prompt, led to.
#[derive(Clone, Copy, Debug, PartialEq, Eq, Structural)]
pub enum Outcome {
    /// The game is over; the payload is the winner. No input was processed.
    GameOver(Side),
    /// No move was resolved.
    Idle,
    /// Both readings are legal: the user must be asked whether to promote.
    AskPromotion,
    /// This move was applied to the position.
    Committed(MoveDescriptor),
    /// No legal move came of the click pair; the position is untouched.
    Aborted,
}

/// The position, the selection carried to the next release, and the
/// candidates of an unanswered promotion prompt.
pub struct Session {
    pub board: Board,
    pub pending: Selection,
    pub awaiting: Option<Candidates>,
}

/// What a release on `t` selects in the position `b`.
pub open spec fn selection_after(b: Board, t: Target) -> Selection {
    let occupant = match t {
        Target::OnBoard(sq) => occupant_of(b, sq),
        _ => None,
    };
    let held = match t {
        Target::Reserve(k) => reserve_count(b, board_turn(b), k) > 0,
        _ => false,
    };
    select_spec(t, occupant, board_turn(b), held)
}

/// Whether the piece that the candidates move is promoted already.
pub open spec fn source_promoted(b: Board, c: Candidates) -> bool {
    match c.plain.start {
        Some(s) => match occupant_of(b, s) {
            Some(p) => p.promoted,
            None => false,
        },
        None => false,
    }
}

pub open spec fn plain_legal(b: Board, c: Candidates) -> bool {
    accepts(b, notation(c.plain))
}

/// The promoting reading counts only where its flag changes the move: not
/// for a drop, and not for a piece that is promoted already.
pub open spec fn promoted_legal(b: Board, c: Candidates) -> bool {
    &&& accepts(b, notation(c.promoted))
    &&& notation(c.promoted) != notation(c.plain)
    &&& !source_promoted(b, c)
}

pub open spec fn decision(b: Board, c: Candidates) -> Decision {
    decide_spec(plain_legal(b, c), promoted_legal(b, c))
}

/// `m` was re-validated against `b`: applied if legal, else dropped.
pub open spec fn commits(b: Board, m: MoveDescriptor, after: Board, r: Outcome) -> bool {
    if accepts(b, notation(m)) {
        r == Outcome::Committed(m) && board_turn(after) == board_turn(b).opposite_spec()
    } else {
        r == Outcome::Aborted && after == b
    }
}

/// How resolving `c` in `b` ends.
pub open spec fn settles(b: Board, c: Candidates, after: Session, r: Outcome) -> bool {
    match decision(b, c) {
        Decision::CommitPlain => commits(b, c.plain, after.board, r) && after.awaiting is None,
        Decision::CommitPromoted => commits(b, c.promoted, after.board, r) && after.awaiting
            is None,
        Decision::Ask => r == Outcome::AskPromotion && after.board == b && after.awaiting == Some(
            c,
        ),
        Decision::Abort => r == Outcome::Aborted && after.board == b && after.awaiting is None,
    }
}

/// A click pair whose first click was on a square without a piece of the side
/// to move builds no candidate move, whatever the second click.
pub proof fn lemma_foreign_source_builds_nothing(b: Board, source: Square, second: Target)
    requires
        !(occupant_of(b, source) matches Some(p) && p.side == board_turn(b)),
    ensures
        candidates_spec(selection_after(b, Target::OnBoard(source)), second) is None,
{
}

/// When exactly one reading is legal, that reading is committed, without a
/// prompt.
pub proof fn lemma_single_legal_reading_commits(b: Board, c: Candidates, after: Session, r: Outcome)
    requires
        plain_legal(b, c) != promoted_legal(b, c),
        settles(b, c, after, r),
    ensures
        r == Outcome::Committed(
            if plain_legal(b, c) {
                c.plain
            } else {
                c.promoted
            },
        ),
        after.awaiting is None,
{
}

/// When both readings are legal, the resolution stops at one prompt, and the
/// committed reading promotes exactly unless the user declined.
pub proof fn lemma_both_legal_asks_once(
    b: Board,
    c: Candidates,
    after: Session,
    r: Outcome,
    answer: PromptAnswer,
)
    requires
        plain_legal(b, c),
        promoted_legal(b, c),
        settles(b, c, after, r),
        after.wf(),
    ensures
        r == Outcome::AskPromotion,
        after.awaiting == Some(c),
        after.board == b,
        pick_spec(c, answer).promotion == (answer != PromptAnswer::DoNotPromote),
{
}

/// A resolution that is given up leaves the position as it was.
pub proof fn lemma_abort_keeps_position(b: Board, c: Candidates, after: Session, r: Outcome)
    requires
        settles(b, c, after, r),
        r == Outcome::Aborted,
    ensures
        after.board == b,
        forall|sq: Square| occupant_of(after.board, sq) == occupant_of(b, sq),
        forall|s: Side, k: PieceType| reserve_count(after.board, s, k) == reserve_count(b, s, k),
{
}

/// A reserve piece is selected only while the reserve of the side to move
/// holds one of its type; with none left, its slot selects nothing.
pub proof fn lemma_reserve_selection_needs_stock(b: Board, t: Target)
    ensures
        selection_after(b, t) matches Selection::FromReserve(k) ==> t == Target::Reserve(k)
            && reserve_count(b, board_turn(b), k) > 0,
        t matches Target::Reserve(k) ==> (reserve_count(b, board_turn(b), k) == 0
            ==> selection_after(b, t) == Selection::Empty),
{
}

/// Moving a piece that is promoted already never prompts.
pub proof fn lemma_promoted_source_never_asks(b: Board, c: Candidates)
    requires
        source_promoted(b, c),
    ensures
        decision(b, c) != Decision::Ask,
{
}

/// A drop never prompts: its promoting reading writes the same move.
pub proof fn lemma_drop_never_asks(b: Board, active: Selection, t: Target)
    requires
        candidates_spec(active, t) matches Some(c) && c.plain.start is None,
    ensures
        decision(b, candidates_spec(active, t).unwrap()) != Decision::Ask,
{
    let c = candidates_spec(active, t).unwrap();
    crate::pieces::lemma_promotion_mark(c.plain);
    assert(c.promoted == MoveDescriptor { promotion: true, ..c.plain });
    assert(c.plain == MoveDescriptor { promotion: false, ..c.plain });
}

impl Session {
    pub open spec fn wf(self) -> bool {
        &&& match self.pending {
            Selection::OnBoard(sq, _) => sq.valid(),
            _ => true,
        }
        &&& match self.awaiting {
            Some(c) => {
                &&& c.plain.valid()
                &&& !c.plain.promotion
                &&& c.promoted == MoveDescriptor { promotion: true, ..c.plain }
            },
            None => true,
        }
    }

    /// A session on the position `board`, with nothing selected.
    pub fn new(board: Board) -> (r: Session)
        ensures
            r.board == board,
            r.pending == Selection::Empty,
            r.awaiting is None,
            r.wf(),
    {
        Session { board, pending: Selection::Empty, awaiting: None }
    }

    /// The winner, once the side to move has lost.
    pub fn winner(&self) -> (r: Option<Side>)
        ensures
            r == winner_spec(finished(self.board), board_turn(self.board)),
    {
        let over = game_over(&self.board);
        let to_move = side_to_move(&self.board);
        winner(over, to_move)
    }

    /// The square whose piece follows the pointer instead of being drawn in place.
    pub fn hidden(&self) -> (r: Option<Square>)
        ensures
            r == self.pending.hidden_spec(),
    {
        self.pending.hidden()
    }

    /// Re-validates `m` and applies it if the engine still accepts it.
    fn commit(&mut self, m: MoveDescriptor) -> (r: Outcome)
        requires
            m.valid(),
        ensures
            commits(old(self).board, m, final(self).board, r),
            final(self).pending == old(self).pending,
            final(self).awaiting == old(self).awaiting,
    {
        let text = move_text(&m);
        assert(m.valid() && notation(m) == text@);
        if is_legal(&self.board, &text) {
            self.board = play(&self.board, &text);
            Outcome::Committed(m)
        } else {
            Outcome::Aborted
        }
    }

    /// One input cycle: the game-over check, then the release of this cycle,
    /// if any. A completed click pair is resolved at once; while a prompt
    /// awaits its answer, input is ignored.
    pub fn cycle(&mut self, release: Option<Target>) -> (r: Outcome)
        requires
            old(self).wf(),
            release matches Some(t) ==> t.valid(),
        ensures
            final(self).wf(),
            finished(old(self).board) ==> r == Outcome::GameOver(
                board_turn(old(self).board).opposite_spec(),
            ) && *final(self) == *old(self),
            !finished(old(self).board) && (old(self).awaiting is Some || release is None) ==> r
                == Outcome::Idle && *final(self) == *old(self),
            release matches Some(t) ==> (!finished(old(self).board) && old(self).awaiting is None
                ==> match candidates_spec(old(self).pending, t) {
                None => {
                    &&& r == Outcome::Idle
                    &&& final(self).pending == selection_after(old(self).board, t)
                    &&& final(self).board == old(self).board
                    &&& final(self).awaiting is None
                },
                Some(c) => final(self).pending == Selection::Empty && settles(
                    old(self).board,
                    c,
                    *final(self),
                    r,
                ),
            }),
            r == Outcome::Aborted ==> final(self).board == old(self).board,
            r == Outcome::Aborted ==> forall|sq: Square|
                occupant_of(final(self).board, sq) == occupant_of(old(self).board, sq),
            r == Outcome::Aborted ==> forall|s: Side, k: PieceType|
                reserve_count(final(self).board, s, k) == reserve_count(old(self).board, s, k),
    {
        if let Some(w) = self.winner() {
            return Outcome::GameOver(w);
        }
        if self.awaiting.is_some() {
            return Outcome::Idle;
        }
        let t = match release {
            Some(t) => t,
            None => {
                return Outcome::Idle;
            },
        };
        let to_move = side_to_move(&self.board);
        let occupant = match t {
            Target::OnBoard(sq) => occupant_at(&self.board, sq),
            _ => None,
        };
        let held = match t {
            Target::Reserve(k) => reserve_holds(&self.board, to_move, k),
            _ => false,
        };
        let selected = select(t, occupant, to_move, held);
        let active = self.pending;
        match candidates(active, t) {
            None => {
                self.pending = selected;
                Outcome::Idle
            },
            Some(c) => {
                self.pending = Selection::Empty;
                let plain_text = move_text(&c.plain);
                let promoted_text = move_text(&c.promoted);
                assert(c.plain.valid() && notation(c.plain) == plain_text@);
                assert(c.promoted.valid() && notation(c.promoted) == promoted_text@);
                let legal_plain = is_legal(&self.board, &plain_text);
                let mut legal_promoted = is_legal(&self.board, &promoted_text) && promoted_text
                    != plain_text;
                if let Some(s) = c.plain.start {
                    if let Some(p) = occupant_at(&self.board, s) {
                        if p.promoted {
                            legal_promoted = false;
                        }
                    }
                }
                match decide(legal_plain, legal_promoted) {
                    Decision::CommitPlain => self.commit(c.plain),
                    Decision::CommitPromoted => self.commit(c.promoted),
                    Decision::Ask => {
                        self.awaiting = Some(c);
                        Outcome::AskPromotion
                    },
                    Decision::Abort => Outcome::Aborted,
                }
            },
        }
    }

    /// Resolves the awaited prompt with the user's answer: the chosen reading
    /// is re-validated and applied, or dropped if the engine now refuses it.
    pub fn answer(&mut self, answer: PromptAnswer) -> (r: Outcome)
        requires
            old(self).wf(),
        ensures
            final(self).wf(),
            old(self).awaiting is None ==> r == Outcome::Idle && *final(self) == *old(self),
            old(self).awaiting matches Some(c) ==> {
                &&& final(self).awaiting is None
                &&& final(self).pending == old(self).pending
                &&& commits(old(self).board, pick_spec(c, answer), final(self).board, r)
            },
            r == Outcome::Aborted ==> final(self).board == old(self).board,
            r == Outcome::Aborted ==> forall|sq: Square|
                occupant_of(final(self).board, sq) == occupant_of(old(self).board, sq),
            r == Outcome::Aborted ==> forall|s: Side, k: PieceType|
                reserve_count(final(self).board, s, k) == reserve_count(old(self).board, s, k),
    {
        match self.awaiting {
            None => Outcome::Idle,
            Some(c) => {
                self.awaiting = None;
                let m = pick(c, answer);
                self.commit(m)
            },
        }
    }
}

} // verus!
