use shogai::board::Board;
use shogai::piece::Color;
use shogai::piece::Piece;
use shogai::piece::PieceType as EngineKind;
use shogai::position::Position;
use shogiban::engine::{occupant_at, reserve_holds};
use shogiban::pieces::{MoveDescriptor, PieceInfo, PieceType, Side, Square};
use shogiban::resolve::{PromptAnswer, Selection, Target};
use shogiban::session::{Outcome, Session};

fn piece(color: Color, kind: EngineKind, promoted: bool, at: Option<u16>) -> Piece {
    Piece {
        color,
        piecetype: kind,
        promoted,
        position: at.map(Position),
    }
}

fn board_with(pieces: &[Piece]) -> Board {
    let mut b = Board::empty();
    for p in pieces {
        b.add_piece(*p);
    }
    b
}

fn cell(index: u16) -> Target {
    Target::OnBoard(Square { index })
}

fn mv(kind: PieceType, start: Option<u16>, end: u16, promotion: bool) -> MoveDescriptor {
    MoveDescriptor {
        kind,
        start: start.map(|index| Square { index }),
        end: Square { index: end },
        promotion,
    }
}

#[test]
fn reserve_drop_commits_drop_and_empties_reserve() {
    let board = board_with(&[piece(Color::White, EngineKind::Pawn, false, None)]);
    let mut s = Session::new(board);
    assert!(reserve_holds(&s.board, Side::White, PieceType::Pawn));
    assert_eq!(s.cycle(Some(Target::Reserve(PieceType::Pawn))), Outcome::Idle);
    assert_eq!(s.pending, Selection::FromReserve(PieceType::Pawn));
    assert_eq!(s.hidden(), None);
    let r = s.cycle(Some(cell(40)));
    assert_eq!(r, Outcome::Committed(mv(PieceType::Pawn, None, 40, false)));
    assert!(!reserve_holds(&s.board, Side::White, PieceType::Pawn));
    let reserve = s
        .board
        .iter()
        .filter(|p| p.position.is_none() && p.color == Color::White && p.piecetype == EngineKind::Pawn)
        .count();
    assert_eq!(reserve, 0);
    assert_eq!(s.board.is_occupied_by(Position(40)).map(|p| p.piecetype), Some(EngineKind::Pawn));
    assert_eq!(s.board.get_color(), Color::Black);
    assert_eq!(s.pending, Selection::Empty);
}

#[test]
fn empty_reserve_slot_selects_nothing() {
    let board = board_with(&[piece(Color::White, EngineKind::Pawn, false, Some(49))]);
    let mut s = Session::new(board);
    assert!(!reserve_holds(&s.board, Side::White, PieceType::Pawn));
    assert_eq!(s.cycle(Some(Target::Reserve(PieceType::Pawn))), Outcome::Idle);
    assert_eq!(s.pending, Selection::Empty);
}

#[test]
fn other_sides_reserve_is_not_selectable() {
    let board = board_with(&[
        piece(Color::Black, EngineKind::Gold, false, None),
        piece(Color::White, EngineKind::Pawn, false, Some(49)),
    ]);
    let mut s = Session::new(board);
    assert_eq!(s.cycle(Some(Target::Reserve(PieceType::Gold))), Outcome::Idle);
    assert_eq!(s.pending, Selection::Empty);
}

#[test]
fn both_legal_prompts_and_declining_keeps_piece_unpromoted() {
    let board = board_with(&[piece(Color::White, EngineKind::Pawn, false, Some(49))]);
    let mut s = Session::new(board);
    assert_eq!(s.cycle(Some(cell(49))), Outcome::Idle);
    assert_eq!(s.pending, Selection::OnBoard(Square { index: 49 }, PieceType::Pawn));
    assert_eq!(s.hidden(), Some(Square { index: 49 }));
    assert_eq!(s.cycle(Some(cell(58))), Outcome::AskPromotion);
    assert!(s.awaiting.is_some());
    assert_eq!(s.hidden(), None);
    let r = s.answer(PromptAnswer::DoNotPromote);
    assert_eq!(r, Outcome::Committed(mv(PieceType::Pawn, Some(49), 58, false)));
    let moved = s.board.is_occupied_by(Position(58)).unwrap();
    assert!(!moved.promoted);
    assert!(s.awaiting.is_none());
}

#[test]
fn dismissed_prompt_promotes() {
    let board = board_with(&[piece(Color::White, EngineKind::Pawn, false, Some(49))]);
    let mut s = Session::new(board);
    s.cycle(Some(cell(49)));
    assert_eq!(s.cycle(Some(cell(58))), Outcome::AskPromotion);
    let r = s.answer(PromptAnswer::Dismissed);
    assert_eq!(r, Outcome::Committed(mv(PieceType::Pawn, Some(49), 58, true)));
    assert!(s.board.is_occupied_by(Position(58)).unwrap().promoted);
}

#[test]
fn promote_answer_promotes() {
    let board = board_with(&[piece(Color::White, EngineKind::Pawn, false, Some(49))]);
    let mut s = Session::new(board);
    s.cycle(Some(cell(49)));
    s.cycle(Some(cell(58)));
    let r = s.answer(PromptAnswer::Promote);
    assert_eq!(r, Outcome::Committed(mv(PieceType::Pawn, Some(49), 58, true)));
}

#[test]
fn input_is_ignored_while_prompt_waits() {
    let board = board_with(&[piece(Color::White, EngineKind::Pawn, false, Some(49))]);
    let mut s = Session::new(board.clone());
    s.cycle(Some(cell(49)));
    s.cycle(Some(cell(58)));
    assert_eq!(s.cycle(Some(cell(49))), Outcome::Idle);
    assert_eq!(s.cycle(None), Outcome::Idle);
    assert!(s.awaiting.is_some());
    assert_eq!(s.board, board);
}

#[test]
fn answer_without_prompt_does_nothing() {
    let board = board_with(&[piece(Color::White, EngineKind::Pawn, false, Some(49))]);
    let mut s = Session::new(board.clone());
    assert_eq!(s.answer(PromptAnswer::Promote), Outcome::Idle);
    assert_eq!(s.board, board);
}

#[test]
fn only_plain_legal_commits_plain() {
    let board = board_with(&[piece(Color::White, EngineKind::Pawn, false, Some(30))]);
    let mut s = Session::new(board);
    s.cycle(Some(cell(30)));
    let r = s.cycle(Some(cell(39)));
    assert_eq!(r, Outcome::Committed(mv(PieceType::Pawn, Some(30), 39, false)));
    assert!(s.awaiting.is_none());
}

#[test]
fn only_promoted_legal_commits_promotion() {
    let board = board_with(&[piece(Color::White, EngineKind::Pawn, false, Some(67))]);
    let mut s = Session::new(board);
    s.cycle(Some(cell(67)));
    let r = s.cycle(Some(cell(76)));
    assert_eq!(r, Outcome::Committed(mv(PieceType::Pawn, Some(67), 76, true)));
    assert!(s.board.is_occupied_by(Position(76)).unwrap().promoted);
}

#[test]
fn promoted_piece_is_never_asked() {
    let board = board_with(&[piece(Color::White, EngineKind::Pawn, true, Some(58))]);
    let mut s = Session::new(board);
    s.cycle(Some(cell(58)));
    let r = s.cycle(Some(cell(67)));
    assert_eq!(r, Outcome::Committed(mv(PieceType::Pawn, Some(58), 67, false)));
    assert!(s.awaiting.is_none());
}

#[test]
fn illegal_pair_aborts_and_keeps_position() {
    let board = board_with(&[piece(Color::White, EngineKind::Pawn, false, Some(49))]);
    let mut s = Session::new(board.clone());
    s.cycle(Some(cell(49)));
    assert_eq!(s.cycle(Some(cell(50))), Outcome::Aborted);
    assert_eq!(s.board, board);
    assert_eq!(s.pending, Selection::Empty);
    assert_eq!(s.hidden(), None);
    assert!(s.awaiting.is_none());
}

#[test]
fn opponent_piece_source_builds_no_move() {
    let board = board_with(&[
        piece(Color::White, EngineKind::King, false, Some(0)),
        piece(Color::White, EngineKind::Pawn, false, Some(30)),
        piece(Color::Black, EngineKind::Pawn, false, Some(49)),
    ]);
    let mut s = Session::new(board.clone());
    assert_eq!(s.cycle(Some(cell(49))), Outcome::Idle);
    assert_eq!(s.pending, Selection::Empty);
    assert_eq!(s.cycle(Some(cell(40))), Outcome::Idle);
    assert_eq!(s.board, board);
}

#[test]
fn empty_square_source_builds_no_move() {
    let board = board_with(&[piece(Color::White, EngineKind::Pawn, false, Some(30))]);
    let mut s = Session::new(board.clone());
    assert_eq!(s.cycle(Some(cell(31))), Outcome::Idle);
    assert_eq!(s.cycle(Some(cell(40))), Outcome::Idle);
    assert_eq!(s.board, board);
}

#[test]
fn own_piece_then_own_piece_aborts() {
    let board = board_with(&[
        piece(Color::White, EngineKind::Pawn, false, Some(30)),
        piece(Color::White, EngineKind::Gold, false, Some(31)),
    ]);
    let mut s = Session::new(board.clone());
    s.cycle(Some(cell(30)));
    assert_eq!(s.cycle(Some(cell(31))), Outcome::Aborted);
    assert_eq!(s.pending, Selection::Empty);
    assert_eq!(s.board, board);
}

#[test]
fn game_over_reports_other_side_and_skips_input() {
    let board = Board::empty();
    let mut s = Session::new(board.clone());
    assert_eq!(s.winner(), Some(Side::Black));
    assert_eq!(s.cycle(Some(cell(40))), Outcome::GameOver(Side::Black));
    assert_eq!(s.pending, Selection::Empty);
    assert_eq!(s.board, board);
}

#[test]
fn game_in_progress_has_no_winner() {
    let s = Session::new(Board::new());
    assert_eq!(s.winner(), None);
}

#[test]
fn opening_move_from_start_position() {
    let mut s = Session::new(Board::new());
    // White's pawn on 9c (index 26) steps to 9d (index 35).
    assert_eq!(s.cycle(Some(cell(26))), Outcome::Idle);
    assert_eq!(s.pending, Selection::OnBoard(Square { index: 26 }, PieceType::Pawn));
    let r = s.cycle(Some(cell(35)));
    assert_eq!(r, Outcome::Committed(mv(PieceType::Pawn, Some(26), 35, false)));
    assert_eq!(s.board.get_color(), Color::Black);
}

#[test]
fn occupant_reads_engine_position() {
    let b = Board::new();
    assert_eq!(
        occupant_at(&b, Square { index: 4 }),
        Some(PieceInfo { kind: PieceType::King, side: Side::White, promoted: false })
    );
    assert_eq!(
        occupant_at(&b, Square { index: 76 }),
        Some(PieceInfo { kind: PieceType::King, side: Side::Black, promoted: false })
    );
    assert_eq!(occupant_at(&b, Square { index: 40 }), None);
}

#[test]
fn reserve_holds_counts_only_side_and_type() {
    let b = board_with(&[
        piece(Color::Black, EngineKind::Silver, false, None),
        piece(Color::White, EngineKind::Silver, false, Some(10)),
    ]);
    assert!(reserve_holds(&b, Side::Black, PieceType::Silver));
    assert!(!reserve_holds(&b, Side::White, PieceType::Silver));
    assert!(!reserve_holds(&b, Side::Black, PieceType::Gold));
}
