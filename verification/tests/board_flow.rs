use chessboard::finalize;
use chessboard::ApplicableMove;
use chessboard::Cell;
use chessboard::Color;
use chessboard::Coord;
use chessboard::HistoricalBoard;
use chessboard::MoveBuilder;
use chessboard::MoveKind;
use chessboard::MoveTextError;
use chessboard::Piece;
use chessboard::Promotion;
use chessboard::PromotePiece;

const START: &str = "rnbqkbnr/pppppppp/8/8/8/8/PPPPPPPP/RNBQKBNR w KQkq - 0 1";

fn sq(file: u8, rank: u8) -> Coord {
    Coord::from_parts(file, rank)
}

// File indices: a=0 .. h=7. Rank indices count from the top: rank 8 is 0,
// rank 1 is 7. So e2 = (4, 6), e4 = (4, 4).

#[test]
fn scenario_standard_opening_move() {
    let mut hb = HistoricalBoard::initialize(START, false).unwrap();
    let mut mb = MoveBuilder::new();

    let e2 = sq(4, 6);
    let e4 = sq(4, 4);

    mb.put_square_coord(e2, hb.current_board_view());
    assert_eq!(mb.src(), Some(e2));
    assert!(matches!(mb, MoveBuilder::Src(_)));

    mb.put_square_coord(e4, hb.current_board_view());
    match &mb {
        MoveBuilder::ApplicableMove(ApplicableMove::Manual(m)) => {
            assert_eq!(m.src(), e2);
            assert_eq!(m.dst(), e4);
            assert_eq!(m.kind(), MoveKind::PawnDouble);
        }
        other => panic!("expected a manual applicable move, got {:?}", other.src()),
    }
    assert_eq!(mb.animations(), vec![(e2, e4)]);

    finalize(&mut mb, &mut hb).unwrap();
    assert!(matches!(mb, MoveBuilder::Empty));

    let board = hb.current_board();
    assert_eq!(board.get(e4), Cell::Occupied { color: Color::White, piece: Piece::Pawn });
    assert_eq!(board.get(e2), Cell::Empty);
    assert_eq!(hb.side_to_move(), Color::Black);
}

#[test]
fn selecting_empty_or_opposing_square_is_ignored() {
    let hb = HistoricalBoard::initialize(START, false).unwrap();
    let mut mb = MoveBuilder::new();

    // An empty square selects nothing.
    mb.put_square_coord(sq(4, 4), hb.current_board_view());
    assert!(matches!(mb, MoveBuilder::Empty));

    // A black pawn cannot be selected while white is to move.
    mb.put_square_coord(sq(4, 1), hb.current_board_view());
    assert!(matches!(mb, MoveBuilder::Empty));
}

#[test]
fn reselecting_the_source_cancels() {
    let hb = HistoricalBoard::initialize(START, false).unwrap();
    let mut mb = MoveBuilder::new();
    let e2 = sq(4, 6);

    mb.put_square_coord(e2, hb.current_board_view());
    assert!(matches!(mb, MoveBuilder::Src(_)));
    mb.put_square_coord(e2, hb.current_board_view());
    assert!(matches!(mb, MoveBuilder::Empty));
}

#[test]
fn illegal_destination_cancels() {
    let hb = HistoricalBoard::initialize(START, false).unwrap();
    let mut mb = MoveBuilder::new();

    // e2 to e5 is not a legal pawn move.
    mb.put_square_coord(sq(4, 6), hb.current_board_view());
    mb.put_square_coord(sq(4, 3), hb.current_board_view());
    assert!(matches!(mb, MoveBuilder::Empty));
}

#[test]
fn click_during_applicable_move_resets() {
    let hb = HistoricalBoard::initialize(START, false).unwrap();
    let mut mb = MoveBuilder::new();

    mb.put_square_coord(sq(4, 6), hb.current_board_view());
    mb.put_square_coord(sq(4, 4), hb.current_board_view());
    assert!(matches!(mb, MoveBuilder::ApplicableMove(_)));
    mb.put_square_coord(sq(0, 6), hb.current_board_view());
    assert!(matches!(mb, MoveBuilder::Empty));
}

// A white pawn on e7 about to promote; kings far apart.
const PROMO: &str = "7k/4P3/8/8/8/8/8/4K3 w - - 0 1";

#[test]
fn scenario_promotion_two_phase() {
    let mut hb = HistoricalBoard::initialize(PROMO, false).unwrap();
    let mut mb = MoveBuilder::new();

    let e7 = sq(4, 1);
    let e8 = sq(4, 0);

    mb.put_square_coord(e7, hb.current_board_view());
    mb.put_square_coord(e8, hb.current_board_view());
    assert!(matches!(mb, MoveBuilder::Promotion(Promotion::PrePromotion { .. })));
    // The picker does not render yet: the move animation plays first.
    assert_eq!(mb.check_promotion(), None);
    assert_eq!(mb.animations(), vec![(e7, e8)]);

    // Committing the first phase shows the picker and hands out no action.
    let action = mb.finalize();
    assert!(action.is_none());
    assert!(matches!(mb, MoveBuilder::Promotion(Promotion::Promotion { .. })));
    assert_eq!(mb.check_promotion(), Some((e7, e8)));
    assert_eq!(mb.animations(), vec![]);

    mb.promote(PromotePiece::Queen, hb.current_board_view());
    match &mb {
        MoveBuilder::ApplicableMove(ApplicableMove::Manual(m)) => {
            assert_eq!(m.kind(), MoveKind::PromoteQueen);
            assert_eq!(m.src(), e7);
            assert_eq!(m.dst(), e8);
        }
        _ => panic!("expected a manual promotion move"),
    }

    finalize(&mut mb, &mut hb).unwrap();
    assert_eq!(
        hb.current_board().get(e8),
        Cell::Occupied { color: Color::White, piece: Piece::Queen }
    );
}

#[test]
fn promotion_not_required_moves_straight_to_applicable() {
    // The same pawn moving to a non-final rank needs no promotion choice.
    let hb =
        HistoricalBoard::initialize("7k/8/4P3/8/8/8/8/4K3 w - - 0 1", false).unwrap();
    let mut mb = MoveBuilder::new();
    mb.put_square_coord(sq(4, 2), hb.current_board_view());
    mb.put_square_coord(sq(4, 1), hb.current_board_view());
    assert!(matches!(mb, MoveBuilder::ApplicableMove(ApplicableMove::Manual(_))));
}

#[test]
fn promote_outside_picker_state_resets() {
    let hb = HistoricalBoard::initialize(START, false).unwrap();
    let mut mb = MoveBuilder::new();
    mb.put_square_coord(sq(4, 6), hb.current_board_view());
    mb.promote(PromotePiece::Rook, hb.current_board_view());
    assert!(matches!(mb, MoveBuilder::Empty));
}

#[test]
fn scenario_two_moves_then_revert() {
    let mut hb = HistoricalBoard::initialize(START, false).unwrap();
    let mut mb = MoveBuilder::new();

    mb.put_uci_move("e2e4", hb.current_board_view()).unwrap();
    finalize(&mut mb, &mut hb).unwrap();
    assert_eq!(hb.history_len(), 2);

    mb.put_uci_move("e7e5", hb.current_board_view()).unwrap();
    finalize(&mut mb, &mut hb).unwrap();
    assert_eq!(hb.history_len(), 3);

    let reverted = hb.revert_last_move().expect("a move to revert");
    assert_eq!(reverted.src(), sq(4, 1));
    assert_eq!(reverted.dst(), sq(4, 3));
    assert_eq!(hb.history_len(), 2);
    assert_eq!(hb.viewed_index(), 1);
    // The player who moved second is to move again.
    assert_eq!(hb.side_to_move(), Color::Black);
}

#[test]
fn revert_on_fresh_board_returns_nothing() {
    let mut hb = HistoricalBoard::initialize(START, false).unwrap();
    assert!(hb.revert_last_move().is_none());
    assert_eq!(hb.history_len(), 1);
}

#[test]
fn scenario_kingside_castling_animates_both_legs() {
    let hb = HistoricalBoard::initialize("r3k2r/8/8/8/8/8/8/R3K2R w KQkq - 0 1", false)
        .unwrap();
    let mut mb = MoveBuilder::new();

    let e1 = sq(4, 7);
    let g1 = sq(6, 7);
    let h1 = sq(7, 7);
    let f1 = sq(5, 7);

    mb.put_square_coord(e1, hb.current_board_view());
    mb.put_square_coord(g1, hb.current_board_view());
    match &mb {
        MoveBuilder::ApplicableMove(ApplicableMove::Manual(m)) => {
            assert_eq!(m.kind(), MoveKind::CastlingKingside);
        }
        _ => panic!("expected a castling move"),
    }
    assert_eq!(mb.animations(), vec![(e1, g1), (h1, f1)]);
    assert_eq!(mb.find_animation(e1), Some(g1));
    assert_eq!(mb.find_animation(h1), Some(f1));
    assert_eq!(mb.find_animation(g1), None);
}

#[test]
fn queenside_castling_animates_both_legs() {
    let hb = HistoricalBoard::initialize("r3k2r/8/8/8/8/8/8/R3K2R b KQkq - 0 1", false)
        .unwrap();
    let mut mb = MoveBuilder::new();

    let e8 = sq(4, 0);
    let c8 = sq(2, 0);
    let a8 = sq(0, 0);
    let d8 = sq(3, 0);

    mb.put_square_coord(e8, hb.current_board_view());
    mb.put_square_coord(c8, hb.current_board_view());
    assert_eq!(mb.animations(), vec![(e8, c8), (a8, d8)]);
}

#[test]
fn animation_displacement_is_in_percent_and_oriented() {
    let hb = HistoricalBoard::initialize(START, false).unwrap();
    let mut mb = MoveBuilder::new();
    mb.put_uci_move("e2e4", hb.current_board_view()).unwrap();

    let e2 = sq(4, 6);
    // Two ranks up the board: rank index falls by two.
    assert_eq!(mb.animation_displacement(e2, Color::White), Some((0, -200)));
    assert_eq!(mb.animation_displacement(e2, Color::Black), Some((0, 200)));
    assert_eq!(mb.animation_displacement(sq(0, 0), Color::White), None);
}

#[test]
fn scenario_step_back_and_forward_restore_the_pointer() {
    let mut hb = HistoricalBoard::initialize(START, false).unwrap();
    let mut mb = MoveBuilder::new();

    mb.put_uci_move("e2e4", hb.current_board_view()).unwrap();
    finalize(&mut mb, &mut hb).unwrap();
    assert_eq!(hb.viewed_index(), 1);
    assert_eq!(hb.history_len(), 2);

    hb.step_back();
    assert_eq!(hb.viewed_index(), 0);
    assert_eq!(hb.history_len(), 2);
    // The viewed board is the starting position again.
    assert_eq!(
        hb.current_board_view().get(sq(4, 6)),
        Cell::Occupied { color: Color::White, piece: Piece::Pawn }
    );
    // The latest board still has the pawn on e4.
    assert_eq!(
        hb.current_board().get(sq(4, 4)),
        Cell::Occupied { color: Color::White, piece: Piece::Pawn }
    );

    hb.step_forward();
    assert_eq!(hb.viewed_index(), 1);
    assert_eq!(hb.history_len(), 2);

    // At the end, stepping forward is a no-op.
    hb.step_forward();
    assert_eq!(hb.viewed_index(), 1);

    hb.step_back();
    hb.step_back();
    // At the start, stepping back is a no-op.
    assert_eq!(hb.viewed_index(), 0);
}

#[test]
fn new_move_from_a_past_position_truncates_the_future() {
    let mut hb = HistoricalBoard::initialize(START, false).unwrap();
    let mut mb = MoveBuilder::new();

    mb.put_uci_move("e2e4", hb.current_board_view()).unwrap();
    finalize(&mut mb, &mut hb).unwrap();
    hb.step_back();
    assert_eq!(hb.history_len(), 2);

    // A different move from the starting position drops the undone future.
    mb.put_uci_move("d2d4", hb.current_board_view()).unwrap();
    finalize(&mut mb, &mut hb).unwrap();
    assert_eq!(hb.history_len(), 2);
    assert_eq!(hb.viewed_index(), 1);
    assert_eq!(hb.current_board().get(sq(3, 4)), Cell::Occupied {
        color: Color::White,
        piece: Piece::Pawn
    });
    assert_eq!(hb.current_board().get(sq(4, 4)), Cell::Empty);
}

#[test]
fn previous_and_next_move_follow_the_pointer() {
    let mut hb = HistoricalBoard::initialize(START, false).unwrap();
    let mut mb = MoveBuilder::new();

    mb.put_uci_move("e2e4", hb.current_board_view()).unwrap();
    finalize(&mut mb, &mut hb).unwrap();

    let prev = hb.get_previous_move().expect("a previous move");
    assert_eq!(prev.src(), sq(4, 6));
    assert_eq!(prev.dst(), sq(4, 4));
    assert!(hb.get_next_move().is_none());

    hb.step_back();
    assert!(hb.get_previous_move().is_none());
    let next = hb.get_next_move().expect("a next move");
    assert_eq!(next.src(), sq(4, 6));
    assert_eq!(next.dst(), sq(4, 4));
}

#[test]
fn revert_through_the_builder_animates_backwards() {
    let mut hb = HistoricalBoard::initialize(START, false).unwrap();
    let mut mb = MoveBuilder::new();

    mb.put_uci_move("e2e4", hb.current_board_view()).unwrap();
    finalize(&mut mb, &mut hb).unwrap();

    let last = hb.last_move().expect("a last move");
    mb.revert_move(&last);
    assert_eq!(mb.animations(), vec![(sq(4, 4), sq(4, 6))]);

    finalize(&mut mb, &mut hb).unwrap();
    assert_eq!(hb.history_len(), 1);
    assert_eq!(hb.side_to_move(), Color::White);
    assert_eq!(hb.current_board().get(sq(4, 4)), Cell::Empty);
}

#[test]
fn reverting_castling_animates_one_geometric_leg() {
    // Reverting is animated by the move's own squares alone: a reverted
    // castling move animates the king's leg only, not the rook's.
    let mut hb = HistoricalBoard::initialize("r3k2r/8/8/8/8/8/8/R3K2R w KQkq - 0 1", false)
        .unwrap();
    let mut mb = MoveBuilder::new();

    mb.put_uci_move("e1g1", hb.current_board_view()).unwrap();
    finalize(&mut mb, &mut hb).unwrap();

    let last = hb.last_move().expect("a last move");
    mb.revert_move(&last);
    assert_eq!(mb.animations(), vec![(sq(6, 7), sq(4, 7))]);
}

#[test]
fn applying_a_stale_move_is_rejected_and_changes_nothing() {
    let mut hb = HistoricalBoard::initialize(START, false).unwrap();
    let mut mb = MoveBuilder::new();

    mb.put_uci_move("e2e4", hb.current_board_view()).unwrap();
    let m = match mb.finalize() {
        Some(chessboard::MoveAction::Apply(m)) => m,
        _ => panic!("expected an applicable move"),
    };
    hb.make_move(m.clone()).unwrap();
    assert_eq!(hb.history_len(), 2);

    // The pawn is no longer on e2: the same move is now illegal.
    let err = hb.make_move(m);
    assert!(err.is_err());
    assert_eq!(hb.history_len(), 2);
    assert_eq!(hb.viewed_index(), 1);
}

#[test]
fn en_passant_is_classified_by_the_engine() {
    let mut hb = HistoricalBoard::initialize(START, false).unwrap();
    let mut mb = MoveBuilder::new();
    for text in ["e2e4", "a7a6", "e4e5", "d7d5"] {
        mb.put_uci_move(text, hb.current_board_view()).unwrap();
        finalize(&mut mb, &mut hb).unwrap();
    }

    // The white pawn on e5 captures the just-advanced d-pawn in passing.
    mb.put_square_coord(sq(4, 3), hb.current_board_view());
    mb.put_square_coord(sq(3, 2), hb.current_board_view());
    match &mb {
        MoveBuilder::ApplicableMove(ApplicableMove::Manual(m)) => {
            assert_eq!(m.kind(), MoveKind::Enpassant);
        }
        _ => panic!("expected an en passant capture"),
    }
    finalize(&mut mb, &mut hb).unwrap();
    // The captured pawn is gone from d5.
    assert_eq!(hb.current_board().get(sq(3, 3)), Cell::Empty);
}

#[test]
fn castling_reports_its_san_name() {
    let mut hb = HistoricalBoard::initialize("r3k2r/8/8/8/8/8/8/R3K2R w KQkq - 0 1", true)
        .unwrap();
    let mut mb = MoveBuilder::new();
    mb.put_square_coord(sq(4, 7), hb.current_board_view());
    mb.put_square_coord(sq(6, 7), hb.current_board_view());
    finalize(&mut mb, &mut hb).unwrap();
    let reports = hb.take_reports();
    assert_eq!(reports.len(), 1);
    match &reports[0] {
        chessboard::BoardAction::Apply(sm) => {
            assert_eq!(sm.san_repr, "O-O");
            assert_eq!(sm.piece, Piece::King);
            assert_eq!(sm.color, Color::White);
        }
        _ => panic!("expected an apply report"),
    }
}

#[test]
fn half_move_clock_at_limit_refuses_quiet_moves() {
    // The engine's half-move counter sits at its 16-bit limit: a quiet rook
    // move would overflow it and is refused without touching the history; a
    // pawn move resets the counter and goes through.
    let mut hb =
        HistoricalBoard::initialize("k7/8/8/8/8/7P/8/K6R w - - 65535 1", false).unwrap();
    let mut mb = MoveBuilder::new();

    mb.put_uci_move("h1h2", hb.current_board_view()).unwrap();
    let r = finalize(&mut mb, &mut hb);
    assert!(matches!(r, Err(chessboard::HistoricalBoardError::Clocks)));
    assert_eq!(hb.history_len(), 1);

    mb.put_uci_move("h3h4", hb.current_board_view()).unwrap();
    finalize(&mut mb, &mut hb).unwrap();
    assert_eq!(hb.history_len(), 2);
}

#[test]
fn move_number_at_limit_refuses_black_moves() {
    // The move number advances after black's move; at its limit a black
    // move is refused.
    let mut hb =
        HistoricalBoard::initialize("k7/8/8/8/8/8/8/K7 b - - 0 65535", false).unwrap();
    let mut mb = MoveBuilder::new();
    mb.put_uci_move("a8b8", hb.current_board_view()).unwrap();
    let r = finalize(&mut mb, &mut hb);
    assert!(matches!(r, Err(chessboard::HistoricalBoardError::Clocks)));
    assert_eq!(hb.history_len(), 1);
}

#[test]
fn malformed_fen_is_a_fen_error() {
    let r = HistoricalBoard::initialize("this is not a position", false);
    assert!(matches!(r, Err(chessboard::HistoricalBoardError::Fen(_))));
}

#[test]
fn replace_position_resets_the_history() {
    let mut hb = HistoricalBoard::initialize(START, false).unwrap();
    let mut mb = MoveBuilder::new();
    mb.put_uci_move("e2e4", hb.current_board_view()).unwrap();
    finalize(&mut mb, &mut hb).unwrap();
    assert_eq!(hb.history_len(), 2);

    hb.replace_position("4k3/8/8/8/8/8/8/4K3 w - - 0 1").unwrap();
    assert_eq!(hb.history_len(), 1);
    assert_eq!(hb.viewed_index(), 0);
    assert_eq!(
        hb.current_board().get(sq(4, 0)),
        Cell::Occupied { color: Color::Black, piece: Piece::King }
    );

    assert!(hb.replace_position("garbage").is_err());
    assert_eq!(hb.history_len(), 1);
}

#[test]
fn san_and_uci_text_errors() {
    let hb = HistoricalBoard::initialize(START, false).unwrap();
    let mut mb = MoveBuilder::new();

    // Rejected by the engine.
    assert!(matches!(
        mb.apply_san_move("Qh5", hb.current_board_view()),
        Err(MoveTextError::San(_))
    ));
    // Too short for a piece move: the parser never sees it.
    assert!(matches!(
        mb.apply_san_move("N", hb.current_board_view()),
        Err(MoveTextError::Unsupported)
    ));
    // Not ASCII: the parsers never see it.
    assert!(matches!(
        mb.apply_san_move("\u{e9}2e4", hb.current_board_view()),
        Err(MoveTextError::Unsupported)
    ));
    assert!(matches!(
        mb.put_uci_move("\u{e9}2e4", hb.current_board_view()),
        Err(MoveTextError::Unsupported)
    ));
    // Legal text but an illegal move.
    assert!(matches!(
        mb.put_uci_move("e2e5", hb.current_board_view()),
        Err(MoveTextError::Uci(_))
    ));
    // Errors leave the builder untouched.
    assert!(matches!(mb, MoveBuilder::Empty));
}

#[test]
fn piece_moves_too_short_after_check_marks_are_unsupported() {
    // The engine's parser strips a trailing check mark before slicing a
    // piece move, so these must be turned away up front, not passed on.
    let hb = HistoricalBoard::initialize(START, false).unwrap();
    let mut mb = MoveBuilder::new();
    for text in ["N1+", "N++", "Rd+", "Qa#", "Kbx"] {
        assert!(matches!(
            mb.apply_san_move(text, hb.current_board_view()),
            Err(MoveTextError::Unsupported)
        ));
    }
    // A full piece move with a check mark is within the parser's subset;
    // the engine simply ignores a wrong mark.
    mb.apply_san_move("Nf3+", hb.current_board_view()).unwrap();
    assert!(matches!(mb, MoveBuilder::ApplicableMove(ApplicableMove::Automatic(_))));
}

#[test]
fn put_square_takes_file_and_rank_indices() {
    let hb = HistoricalBoard::initialize(START, false).unwrap();
    let mut mb = MoveBuilder::new();
    mb.put_square(4, 6, hb.current_board_view());
    mb.put_square(4, 4, hb.current_board_view());
    assert!(matches!(mb, MoveBuilder::ApplicableMove(ApplicableMove::Manual(_))));
    assert_eq!(mb.dst(), Some(sq(4, 4)));
}

#[test]
fn black_pawn_promotes_on_the_bottom_rank() {
    // A black pawn on e2 promotes on e1.
    let hb = HistoricalBoard::initialize("7k/8/8/8/8/8/4p3/6K1 b - - 0 1", false).unwrap();
    let mut mb = MoveBuilder::new();
    mb.put_square_coord(sq(4, 6), hb.current_board_view());
    mb.put_square_coord(sq(4, 7), hb.current_board_view());
    assert!(matches!(mb, MoveBuilder::Promotion(Promotion::PrePromotion { .. })));
}

#[test]
fn cells_expose_piece_and_colour() {
    let hb = HistoricalBoard::initialize(START, false).unwrap();
    let cell = hb.current_board().get(sq(3, 0));
    assert_eq!(cell.piece(), Some(Piece::Queen));
    assert_eq!(cell.color(), Some(Color::Black));
    let empty = hb.current_board().get(sq(3, 3));
    assert_eq!(empty.piece(), None);
    assert_eq!(empty.color(), None);
}

#[test]
fn san_injection_accepts_san_and_coordinate_text() {
    let hb = HistoricalBoard::initialize(START, false).unwrap();
    let mut mb = MoveBuilder::new();

    mb.apply_san_move("Nf3", hb.current_board_view()).unwrap();
    match &mb {
        MoveBuilder::ApplicableMove(ApplicableMove::Automatic(m)) => {
            assert_eq!(m.src(), sq(6, 7));
            assert_eq!(m.dst(), sq(5, 5));
            assert_eq!(m.kind(), MoveKind::Simple);
        }
        _ => panic!("expected an automatic move"),
    }

    let mut mb2 = MoveBuilder::new();
    mb2.apply_san_move("e2e4", hb.current_board_view()).unwrap();
    assert!(matches!(mb2, MoveBuilder::ApplicableMove(ApplicableMove::Automatic(_))));
}
