//! Core of an interactive chessboard widget: a move-construction state
//! machine, a navigable history of board positions, and an idempotent
//! action-injection protocol. Move legality, position parsing and move
//! notation are delegated to the `owlchess` rules engine through a small
//! trusted layer.

pub mod action;
pub mod history;
pub mod move_builder;
pub mod moves;
pub mod oracle;
pub mod position;
pub mod props;
pub mod types;

pub use action::{
    apply_if_unprocessed, Action, ActionInner, ActionSequencer, ChessboardClient, ProcessedMarker,
};
pub use history::{BoardAction, HistoricalBoard, HistoricalBoardError, SanMove, Step};
pub use move_builder::{ApplicableMove, MoveAction, MoveBuilder, MoveTextError, Promotion};
pub use moves::{render_uci, reparse_uci, ChessMove};
pub use position::Position;
pub use props::{ChessboardProps, CompleteChessboardProps, PieceSet};
pub use types::{Cell, Color, Coord, MoveKind, Piece, PromotePiece};

use move_builder::spec_finalize_action;
use vstd::prelude::*;

verus! {

/// Commits the move builder's state and applies the outcome to the
/// historical board: an applicable move is applied, reverted or stepped over
/// as its action says, and the builder resets; the first promotion step
/// advances to the picker-visible second step and touches the board not at
/// all. The only surfaced error is the rules engine rejecting a move at
/// application; the builder has already reset when that happens.
pub fn finalize(move_builder: &mut MoveBuilder, board: &mut HistoricalBoard) -> (r: Result<
    (),
    HistoricalBoardError,
>)
    requires
        old(move_builder).wf(),
        old(board).wf(),
    ensures
        final(move_builder).wf(),
        final(board).wf(),
        *old(move_builder) matches MoveBuilder::Promotion(Promotion::PrePromotion { src, dst })
            ==> *final(move_builder) == (MoveBuilder::Promotion(Promotion::Promotion { src, dst }))
            && *final(board) == *old(board) && r is Ok,
        *old(move_builder) matches MoveBuilder::ApplicableMove(am) ==> (*final(move_builder))
            is Empty && spec_move_action_applied(spec_finalize_action(am), *old(board), *final(board), r),
        !(*old(move_builder) matches MoveBuilder::Promotion(Promotion::PrePromotion { .. }) || *old(
            move_builder,
        ) is ApplicableMove) ==> *final(move_builder) == *old(move_builder) && *final(board)
            == *old(board) && r is Ok,
{
    let action = move_builder.finalize();
    match action {
        Some(MoveAction::Apply(m)) => board.make_move(m),
        Some(MoveAction::Revert) => {
            let _ = board.revert_last_move();
            Ok(())
        },
        Some(MoveAction::StepBack) => {
            board.step_back();
            Ok(())
        },
        Some(MoveAction::StepForward) => {
            board.step_forward();
            Ok(())
        },
        None => Ok(()),
    }
}

/// What one committed action does to the historical board. The full
/// contracts of applying, reverting and stepping are those of
/// [`HistoricalBoard::make_move`], [`HistoricalBoard::revert_last_move`],
/// [`HistoricalBoard::step_back`] and [`HistoricalBoard::step_forward`];
/// this states their shape: how the history's length and the pointer move,
/// which entries are kept, and that a rejected move changes nothing.
pub open spec fn spec_move_action_applied(
    action: MoveAction,
    h0: HistoricalBoard,
    h1: HistoricalBoard,
    r: Result<(), HistoricalBoardError>,
) -> bool {
    match action {
        MoveAction::Apply(m) => {
            &&& (r is Ok <==> position::spec_clocks_ok(h0.steps()[h0.pointer()].spec_board(), m@)
                && crate::oracle::legal_on(h0.steps()[h0.pointer()].spec_board(), m@))
            &&& (r matches Err(e) ==> h1 == h0 && (e is Validation || e is Clocks))
            &&& (r is Ok ==> h1.steps().len() == h0.pointer() + 2 && h1.pointer() == h1.steps().len()
                - 1 && (h1.steps()[h0.pointer()] matches Step::Intermediate(b, mm) && b@
                == h0.steps()[h0.pointer()].spec_board() && mm@ == m@) && (h1.steps().last()
                matches Step::Last(nb) && nb@ == crate::oracle::spec_applied(
                h0.steps()[h0.pointer()].spec_board(),
                m@,
            )) && (forall|i: int| 0 <= i < h0.pointer() ==> h1.steps()[i] == h0.steps()[i]))
        },
        MoveAction::Revert => {
            &&& r is Ok
            &&& (h0.steps().len() == 1 ==> h1.steps() == h0.steps() && h1.pointer() == 0)
            &&& (h0.steps().len() >= 2 ==> h1.steps().len() == h0.steps().len() - 1 && h1.pointer()
                == h1.steps().len() - 1 && (forall|i: int|
                0 <= i < h0.steps().len() - 2 ==> h1.steps()[i] == h0.steps()[i]))
        },
        MoveAction::StepBack => {
            &&& r is Ok
            &&& h1.steps() == h0.steps()
            &&& (h0.pointer() == 0 ==> h1 == h0)
            &&& (h0.pointer() > 0 ==> h1.pointer() == h0.pointer() - 1)
        },
        MoveAction::StepForward => {
            &&& r is Ok
            &&& h1.steps() == h0.steps()
            &&& (h0.pointer() == h0.steps().len() - 1 ==> h1 == h0)
            &&& (h0.pointer() < h0.steps().len() - 1 ==> h1.pointer() == h0.pointer() + 1)
        },
    }
}

/// Undo/redo boundary law: after a move is applied, stepping back and then
/// stepping forward restores the pointer to its value after the move, without
/// altering the history's steps. `h0` is the board before the move, `h1`
/// after it, `h2` after stepping back, `h3` after stepping forward.
pub proof fn lemma_step_boundary(
    m: ChessMove,
    h0: HistoricalBoard,
    h1: HistoricalBoard,
    h2: HistoricalBoard,
    h3: HistoricalBoard,
)
    requires
        h0.wf(),
        spec_move_action_applied(MoveAction::Apply(m), h0, h1, Ok(())),
        spec_move_action_applied(MoveAction::StepBack, h1, h2, Ok(())),
        spec_move_action_applied(MoveAction::StepForward, h2, h3, Ok(())),
    ensures
        h3.steps() == h1.steps(),
        h3.pointer() == h1.pointer(),
{
}

} // verus!
