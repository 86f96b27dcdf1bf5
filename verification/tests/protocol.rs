use chessboard::apply_if_unprocessed;
use chessboard::finalize;
use chessboard::render_uci;
use chessboard::reparse_uci;
use chessboard::Action;
use chessboard::ActionSequencer;
use chessboard::ApplicableMove;
use chessboard::BoardAction;
use chessboard::Cell;
use chessboard::ChessboardClient;
use chessboard::ChessboardProps;
use chessboard::Color;
use chessboard::Coord;
use chessboard::HistoricalBoard;
use chessboard::MoveBuilder;
use chessboard::MoveKind;
use chessboard::Piece;
use chessboard::PieceSet;
use chessboard::ProcessedMarker;

const START: &str = "rnbqkbnr/pppppppp/8/8/8/8/PPPPPPPP/RNBQKBNR w KQkq - 0 1";

fn sq(file: u8, rank: u8) -> Coord {
    Coord::from_parts(file, rank)
}

#[test]
fn scenario_same_action_applied_once() {
    let mut seq = ActionSequencer::new();
    let mut marker = ProcessedMarker::new();
    let mut hb = HistoricalBoard::initialize(START, false).unwrap();
    let mut mb = MoveBuilder::new();

    let a = Action::set_position("4k3/8/8/8/8/8/8/4K3 w - - 0 1", &mut seq);
    apply_if_unprocessed(&a, &mut marker, &mut mb, &mut hb, true).unwrap();
    assert_eq!(hb.history_len(), 1);
    assert_eq!(
        hb.current_board().get(sq(4, 7)),
        Cell::Occupied { color: Color::White, piece: Piece::King }
    );

    // Play a move on the replaced position, so a second reset would show.
    mb.put_uci_move("e1e2", hb.current_board_view()).unwrap();
    finalize(&mut mb, &mut hb).unwrap();
    assert_eq!(hb.history_len(), 2);

    // The same constructed action again: a no-op, the history is not reset.
    apply_if_unprocessed(&a, &mut marker, &mut mb, &mut hb, true).unwrap();
    assert_eq!(hb.history_len(), 2);
}

#[test]
fn injected_move_flows_through_builder_and_board() {
    let mut seq = ActionSequencer::new();
    let mut marker = ProcessedMarker::new();
    let mut hb = HistoricalBoard::initialize(START, false).unwrap();
    let mut mb = MoveBuilder::new();

    let a = Action::make_move("e4", &mut seq);
    assert!(a.is_move());
    apply_if_unprocessed(&a, &mut marker, &mut mb, &mut hb, true).unwrap();
    assert!(matches!(mb, MoveBuilder::ApplicableMove(ApplicableMove::Automatic(_))));

    finalize(&mut mb, &mut hb).unwrap();
    assert_eq!(
        hb.current_board().get(sq(4, 4)),
        Cell::Occupied { color: Color::White, piece: Piece::Pawn }
    );
}

#[test]
fn illegal_injected_move_changes_nothing() {
    let mut seq = ActionSequencer::new();
    let mut marker = ProcessedMarker::new();
    let mut hb = HistoricalBoard::initialize(START, false).unwrap();
    let mut mb = MoveBuilder::new();

    let a = Action::make_move("Qh5", &mut seq);
    apply_if_unprocessed(&a, &mut marker, &mut mb, &mut hb, true).unwrap();
    assert!(matches!(mb, MoveBuilder::Empty));
    assert_eq!(hb.history_len(), 1);
}

#[test]
fn non_interactive_board_ignores_moves_but_accepts_positions() {
    let mut seq = ActionSequencer::new();
    let mut marker = ProcessedMarker::new();
    let mut hb = HistoricalBoard::initialize(START, false).unwrap();
    let mut mb = MoveBuilder::new();

    let a = Action::make_move("e4", &mut seq);
    apply_if_unprocessed(&a, &mut marker, &mut mb, &mut hb, false).unwrap();
    assert!(matches!(mb, MoveBuilder::Empty));

    let b = Action::revert_move(&mut seq);
    apply_if_unprocessed(&b, &mut marker, &mut mb, &mut hb, false).unwrap();
    assert!(matches!(mb, MoveBuilder::Empty));

    let c = Action::set_position("4k3/8/8/8/8/8/8/4K3 w - - 0 1", &mut seq);
    apply_if_unprocessed(&c, &mut marker, &mut mb, &mut hb, false).unwrap();
    assert_eq!(
        hb.current_board().get(sq(4, 0)),
        Cell::Occupied { color: Color::Black, piece: Piece::King }
    );
}

#[test]
fn navigation_actions_drive_builder_and_pointer() {
    let mut seq = ActionSequencer::new();
    let mut marker = ProcessedMarker::new();
    let mut hb = HistoricalBoard::initialize(START, false).unwrap();
    let mut mb = MoveBuilder::new();

    mb.put_uci_move("e2e4", hb.current_board_view()).unwrap();
    finalize(&mut mb, &mut hb).unwrap();

    // Step back: the builder animates the move backwards, then the commit
    // moves the pointer.
    let back = Action::prev(&mut seq);
    apply_if_unprocessed(&back, &mut marker, &mut mb, &mut hb, true).unwrap();
    assert_eq!(mb.animations(), vec![(sq(4, 4), sq(4, 6))]);
    finalize(&mut mb, &mut hb).unwrap();
    assert_eq!(hb.viewed_index(), 0);

    // Step forward: the move animates as played and the pointer returns.
    let fwd = Action::next(&mut seq);
    apply_if_unprocessed(&fwd, &mut marker, &mut mb, &mut hb, true).unwrap();
    assert_eq!(mb.animations(), vec![(sq(4, 6), sq(4, 4))]);
    finalize(&mut mb, &mut hb).unwrap();
    assert_eq!(hb.viewed_index(), 1);

    let start = Action::set_start_position(&mut seq);
    apply_if_unprocessed(&start, &mut marker, &mut mb, &mut hb, true).unwrap();
    assert_eq!(hb.viewed_index(), 0);

    let end = Action::set_end_position(&mut seq);
    apply_if_unprocessed(&end, &mut marker, &mut mb, &mut hb, true).unwrap();
    assert_eq!(hb.viewed_index(), 1);
}

#[test]
fn revert_action_prepares_the_reverse_animation() {
    let mut seq = ActionSequencer::new();
    let mut marker = ProcessedMarker::new();
    let mut hb = HistoricalBoard::initialize(START, false).unwrap();
    let mut mb = MoveBuilder::new();

    mb.put_uci_move("e2e4", hb.current_board_view()).unwrap();
    finalize(&mut mb, &mut hb).unwrap();

    let a = Action::revert_move(&mut seq);
    apply_if_unprocessed(&a, &mut marker, &mut mb, &mut hb, true).unwrap();
    assert!(matches!(mb, MoveBuilder::ApplicableMove(ApplicableMove::Revert(_))));
    assert_eq!(mb.animations(), vec![(sq(4, 4), sq(4, 6))]);

    finalize(&mut mb, &mut hb).unwrap();
    assert_eq!(hb.history_len(), 1);
    assert_eq!(hb.side_to_move(), Color::White);
}

#[test]
fn client_queues_actions_in_order() {
    let mut client = ChessboardClient::new();
    client.make_move("e2e4");
    client.revert_move();
    let actions = client.take_actions();
    assert_eq!(actions.len(), 2);
    assert!(actions[0].is_move());
    assert!(actions[1].is_move());
    assert_eq!(client.take_actions().len(), 0);

    // Delivering the queued move drives the board.
    let mut marker = ProcessedMarker::new();
    let mut hb = HistoricalBoard::initialize(START, false).unwrap();
    let mut mb = MoveBuilder::new();
    apply_if_unprocessed(&actions[0], &mut marker, &mut mb, &mut hb, true).unwrap();
    assert!(matches!(mb, MoveBuilder::ApplicableMove(ApplicableMove::Automatic(_))));
}

#[test]
fn reports_carry_san_text_piece_and_colour() {
    let mut hb = HistoricalBoard::initialize(START, true).unwrap();
    let mut mb = MoveBuilder::new();

    mb.apply_san_move("Nf3", hb.current_board_view()).unwrap();
    finalize(&mut mb, &mut hb).unwrap();

    let reports = hb.take_reports();
    assert_eq!(reports.len(), 1);
    match &reports[0] {
        BoardAction::Apply(sm) => {
            assert_eq!(sm.san_repr, "Nf3");
            assert_eq!(sm.piece, Piece::Knight);
            assert_eq!(sm.color, Color::White);
        }
        other => panic!("expected an apply report, got {:?}", other),
    }
    assert_eq!(hb.take_reports().len(), 0);
}

#[test]
fn navigation_reports_follow_the_pointer() {
    let mut hb = HistoricalBoard::initialize(START, true).unwrap();
    let mut mb = MoveBuilder::new();

    mb.put_uci_move("e2e4", hb.current_board_view()).unwrap();
    finalize(&mut mb, &mut hb).unwrap();
    let _ = hb.take_reports();

    hb.step_back();
    hb.step_forward();
    hb.set_start();
    hb.set_end();
    let reports = hb.take_reports();
    assert_eq!(reports.len(), 4);
    assert!(matches!(&reports[0], BoardAction::StepBack(sm) if sm.san_repr == "e4"));
    assert!(matches!(&reports[1], BoardAction::StepForward(sm) if sm.san_repr == "e4"));
    assert_eq!(reports[2], BoardAction::SetStartPosition);
    assert_eq!(reports[3], BoardAction::SetEndPosition);
}

#[test]
fn detached_board_reports_nothing() {
    let mut hb = HistoricalBoard::initialize(START, false).unwrap();
    let mut mb = MoveBuilder::new();
    mb.put_uci_move("e2e4", hb.current_board_view()).unwrap();
    finalize(&mut mb, &mut hb).unwrap();
    hb.step_back();
    assert_eq!(hb.take_reports().len(), 0);
}

#[test]
fn uci_round_trip_preserves_squares_and_kind() {
    let mut hb = HistoricalBoard::initialize(START, false).unwrap();
    let mut mb = MoveBuilder::new();
    mb.put_uci_move("e2e4", hb.current_board_view()).unwrap();
    let m = match mb.finalize() {
        Some(chessboard::MoveAction::Apply(m)) => m,
        _ => panic!("expected an applicable move"),
    };

    assert_eq!(render_uci(&m), "e2e4");
    let m2 = reparse_uci(&m, hb.current_board()).expect("the text parses back");
    assert_eq!(m2.src(), m.src());
    assert_eq!(m2.dst(), m.dst());
    assert_eq!(m2.kind(), m.kind());

    // The same round trip through a promotion keeps the promotion letter.
    hb.replace_position("7k/4P3/8/8/8/8/8/4K3 w - - 0 1").unwrap();
    mb.put_uci_move("e7e8n", hb.current_board_view()).unwrap();
    let p = match mb.finalize() {
        Some(chessboard::MoveAction::Apply(m)) => m,
        _ => panic!("expected an applicable move"),
    };
    assert_eq!(render_uci(&p), "e7e8n");
    assert_eq!(p.kind(), MoveKind::PromoteKnight);
    let p2 = reparse_uci(&p, hb.current_board()).expect("the text parses back");
    assert_eq!(p2.src(), p.src());
    assert_eq!(p2.dst(), p.dst());
    assert_eq!(p2.kind(), p.kind());
}

#[test]
fn action_discriminators_increase_from_zero() {
    let mut seq = ActionSequencer::new();
    let mut marker = ProcessedMarker::new();
    let mut hb = HistoricalBoard::initialize(START, false).unwrap();
    let mut mb = MoveBuilder::new();

    // The first constructed action is never mistaken for already processed.
    let first = Action::make_move("e4", &mut seq);
    apply_if_unprocessed(&first, &mut marker, &mut mb, &mut hb, true).unwrap();
    assert!(matches!(mb, MoveBuilder::ApplicableMove(_)));

    // Each later action is distinct from the last processed one.
    let mut mb2 = MoveBuilder::new();
    let second = Action::make_move("d4", &mut seq);
    apply_if_unprocessed(&second, &mut marker, &mut mb2, &mut hb, true).unwrap();
    assert!(matches!(mb2, MoveBuilder::ApplicableMove(_)));
}

#[test]
fn props_fill_in_defaults() {
    let props = ChessboardProps {
        is_interactive: None,
        player_color: Color::Black,
        single_player_mode: None,
        starting_position: None,
        pieces_set: None,
        action: None,
    };
    let complete = props.complete();
    assert!(complete.is_interactive);
    assert!(!complete.single_player_mode);
    assert_eq!(complete.color, Color::Black);
    assert_eq!(complete.starting_position, ChessboardProps::default_position());
    assert_eq!(complete.pieces_set, PieceSet::Standard);
    assert_eq!(complete.starting_position, START);
}

#[test]
fn interactivity_depends_on_mode_and_side() {
    let props = ChessboardProps {
        is_interactive: Some(true),
        player_color: Color::White,
        single_player_mode: Some(true),
        starting_position: None,
        pieces_set: None,
        action: None,
    };
    let complete = props.complete();
    assert!(complete.is_interactive_for(Color::White));
    assert!(!complete.is_interactive_for(Color::Black));

    let display_only = ChessboardProps {
        is_interactive: Some(false),
        player_color: Color::White,
        single_player_mode: None,
        starting_position: None,
        pieces_set: None,
        action: None,
    };
    let complete = display_only.complete();
    assert!(!complete.is_interactive_for(Color::White));
}

#[test]
fn coordinates_index_the_board_from_the_top_left() {
    assert_eq!(sq(0, 0).index(), 0);
    assert_eq!(sq(7, 7).index(), 63);
    assert_eq!(sq(4, 6).index(), 52);
}
