use vstd::prelude::*;

use crate::history::{BoardAction, HistoricalBoard, HistoricalBoardError};
use crate::move_builder::{ApplicableMove, MoveBuilder};
use vstd::string::*;

verus! {

/// Issues the discriminators that make injected actions unique: a counter
/// starting at zero, increasing by one per constructed action and wrapping
/// only at the numeric limit. The host owns one sequencer and threads it
/// through every [`Action`] constructor, so that construction order defines
/// intended application order.
pub struct ActionSequencer {
    next: u32,
}

/// The discriminator issued after `x`.
pub open spec fn spec_next_disc(x: u32) -> u32 {
    if x == u32::MAX {
        0
    } else {
        (x + 1) as u32
    }
}

impl ActionSequencer {
    /// The discriminator the next constructed action will carry.
    pub closed spec fn spec_next(self) -> u32 {
        self.next
    }

    pub fn new() -> (r: ActionSequencer)
        ensures
            r.spec_next() == 0,
    {
        ActionSequencer { next: 0 }
    }

    /// Hands out the next discriminator and advances the counter.
    fn issue(&mut self) -> (d: u32)
        ensures
            d == old(self).spec_next(),
            final(self).spec_next() == spec_next_disc(old(self).spec_next()),
    {
        let d = self.next;
        if self.next == u32::MAX {
            self.next = 0;
        } else {
            self.next = self.next + 1;
        }
        d
    }
}

/// Records the discriminator of the most recently applied action, so that
/// delivering the same constructed action again — as a re-render does — is a
/// no-op. It starts at one while the sequencer starts at zero, so the very
/// first action is never mistaken for already processed. The flip side of
/// this sentinel: a host that skips its first constructed action and hands a
/// fresh marker the second one — discriminator one — first would see that
/// action treated as already processed; delivering actions in construction
/// order, as the protocol intends, never does so.
pub struct ProcessedMarker {
    last: u32,
}

impl ProcessedMarker {
    /// The discriminator of the most recently applied action.
    pub closed spec fn spec_last(self) -> u32 {
        self.last
    }

    pub fn new() -> (r: ProcessedMarker)
        ensures
            r.spec_last() == 1,
    {
        ProcessedMarker { last: 1 }
    }
}

/// What an injected action asks the board to do.
pub enum ActionInner {
    /// Make the move written in this text (SAN, or coordinate text).
    MakeMove(String),
    /// Revert the last applied move.
    Revert,
    /// Replace the whole position with this FEN description.
    SetPosition(String),
    /// View the previous position.
    StepBack,
    /// View the next position.
    StepForward,
    /// View the first position.
    SetStart,
    /// View the last position.
    SetEnd,
}

/// A command a host injects into the board: a payload and a discriminator
/// that makes this constructed command unique, for at-most-once application.
pub struct Action {
    pub(crate) discriminator: u32,
    pub(crate) action: ActionInner,
}

impl Action {
    /// The discriminator this action carries.
    pub closed spec fn disc(self) -> u32 {
        self.discriminator
    }

    /// The payload this action carries.
    pub closed spec fn payload(self) -> ActionInner {
        self.action
    }

    /// An action making the move written in `m`, in SAN or coordinate text.
    pub fn make_move(m: &str, seq: &mut ActionSequencer) -> (a: Action)
        ensures
            a.disc() == old(seq).spec_next(),
            final(seq).spec_next() == spec_next_disc(old(seq).spec_next()),
            a.payload() matches ActionInner::MakeMove(s) && s@ == m@,
    {
        Action { discriminator: seq.issue(), action: ActionInner::MakeMove(String::from_str(m)) }
    }

    /// An action reverting the last applied move.
    pub fn revert_move(seq: &mut ActionSequencer) -> (a: Action)
        ensures
            a.disc() == old(seq).spec_next(),
            final(seq).spec_next() == spec_next_disc(old(seq).spec_next()),
            a.payload() is Revert,
    {
        Action { discriminator: seq.issue(), action: ActionInner::Revert }
    }

    /// An action replacing the position with the one written in `fen`.
    pub fn set_position(fen: &str, seq: &mut ActionSequencer) -> (a: Action)
        ensures
            a.disc() == old(seq).spec_next(),
            final(seq).spec_next() == spec_next_disc(old(seq).spec_next()),
            a.payload() matches ActionInner::SetPosition(s) && s@ == fen@,
    {
        Action {
            discriminator: seq.issue(),
            action: ActionInner::SetPosition(String::from_str(fen)),
        }
    }

    /// An action viewing the first position.
    pub fn set_start_position(seq: &mut ActionSequencer) -> (a: Action)
        ensures
            a.disc() == old(seq).spec_next(),
            final(seq).spec_next() == spec_next_disc(old(seq).spec_next()),
            a.payload() is SetStart,
    {
        Action { discriminator: seq.issue(), action: ActionInner::SetStart }
    }

    /// An action viewing the last position.
    pub fn set_end_position(seq: &mut ActionSequencer) -> (a: Action)
        ensures
            a.disc() == old(seq).spec_next(),
            final(seq).spec_next() == spec_next_disc(old(seq).spec_next()),
            a.payload() is SetEnd,
    {
        Action { discriminator: seq.issue(), action: ActionInner::SetEnd }
    }

    /// An action viewing the previous position.
    pub fn prev(seq: &mut ActionSequencer) -> (a: Action)
        ensures
            a.disc() == old(seq).spec_next(),
            final(seq).spec_next() == spec_next_disc(old(seq).spec_next()),
            a.payload() is StepBack,
    {
        Action { discriminator: seq.issue(), action: ActionInner::StepBack }
    }

    /// An action viewing the next position.
    pub fn next(seq: &mut ActionSequencer) -> (a: Action)
        ensures
            a.disc() == old(seq).spec_next(),
            final(seq).spec_next() == spec_next_disc(old(seq).spec_next()),
            a.payload() is StepForward,
    {
        Action { discriminator: seq.issue(), action: ActionInner::StepForward }
    }

    /// Whether the action asks for a move to be made or reverted.
    pub fn is_move(&self) -> (r: bool)
        ensures
            r == (self.payload() is MakeMove || self.payload() is Revert),
    {
        match self.action {
            ActionInner::MakeMove(_) => true,
            ActionInner::Revert => true,
            _ => false,
        }
    }
}

/// The builder holds an injected move, validated against the board's
/// currently viewed position: the move is legal there, and its source cell
/// is that position's cell at the move's source square and holds a piece of
/// the side to move.
pub open spec fn spec_injected_move(b1: MoveBuilder, h0: HistoricalBoard) -> bool {
    b1 matches MoveBuilder::ApplicableMove(ApplicableMove::Automatic(m)) && m.wf()
        && h0.steps()[h0.pointer()].spec_board().cells[m@.src.idx()] == m@.src_cell
        && m@.src_cell.spec_color() == Some(h0.steps()[h0.pointer()].spec_board().side)
        && crate::oracle::legal_on(h0.steps()[h0.pointer()].spec_board(), m@)
}

/// What one dispatched payload does to the move builder and the historical
/// board. Move and revert requests are honoured only on an interactive
/// board; a position replacement and navigation are honoured always. Moves
/// and reverts go through the move builder, to be committed by
/// [`crate::finalize`]; a position replacement acts on the board directly.
pub open spec fn spec_dispatched(
    payload: ActionInner,
    b0: MoveBuilder,
    b1: MoveBuilder,
    h0: HistoricalBoard,
    h1: HistoricalBoard,
    is_interactive: bool,
    r: Result<(), HistoricalBoardError>,
) -> bool {
    match payload {
        ActionInner::MakeMove(text) => {
            &&& h1 == h0
            &&& r is Ok
            &&& if is_interactive && text.is_ascii() && crate::moves::spec_san_text_safe(text@)
                && crate::oracle::san_accepts(h0.steps()[h0.pointer()].spec_board(), text@) {
                spec_injected_move(b1, h0)
            } else {
                b1 == b0
            }
        },
        ActionInner::Revert => {
            &&& h1 == h0
            &&& r is Ok
            &&& if is_interactive && h0.steps().len() >= 2 {
                b1 matches MoveBuilder::ApplicableMove(ApplicableMove::Revert(rm)) && h0.steps()[
                    h0.steps().len() - 2].spec_move() == Some(rm@)
            } else {
                b1 == b0
            }
        },
        ActionInner::SetPosition(fen) => {
            &&& b1 == b0
            &&& (r is Ok <==> crate::oracle::spec_fen_position(fen@) is Some)
            &&& (r is Ok ==> h1.steps().len() == 1 && h1.steps()[0] is Last && Some(
                h1.steps()[0].spec_board(),
            ) == crate::oracle::spec_fen_position(fen@) && h1.pointer() == 0
                && h1.spec_attached() == h0.spec_attached() && h1.reports() == h0.reports())
            &&& (r matches Err(e) ==> h1 == h0 && e is Fen)
        },
        ActionInner::StepBack => {
            &&& h1 == h0
            &&& r is Ok
            &&& if h0.pointer() > 0 {
                b1 matches MoveBuilder::ApplicableMove(ApplicableMove::Previous(rm))
                    && h0.steps()[h0.pointer() - 1].spec_move() == Some(rm@)
            } else {
                b1 == b0
            }
        },
        ActionInner::StepForward => {
            &&& h1 == h0
            &&& r is Ok
            &&& if h0.pointer() < h0.steps().len() - 1 {
                b1 matches MoveBuilder::ApplicableMove(ApplicableMove::Next(nm))
                    && h0.steps()[h0.pointer()].spec_move() == Some(nm@)
            } else {
                b1 == b0
            }
        },
        ActionInner::SetStart => {
            &&& b1 == b0
            &&& r is Ok
            &&& h1.steps() == h0.steps()
            &&& h1.pointer() == 0
            &&& h1.spec_attached() == h0.spec_attached()
            &&& (h0.spec_attached() ==> h1.reports() =~= h0.reports().push(
                BoardAction::SetStartPosition,
            ))
            &&& (!h0.spec_attached() ==> h1.reports() =~= h0.reports())
        },
        ActionInner::SetEnd => {
            &&& b1 == b0
            &&& r is Ok
            &&& h1.steps() == h0.steps()
            &&& h1.pointer() == h0.steps().len() - 1
            &&& h1.spec_attached() == h0.spec_attached()
            &&& (h0.spec_attached() ==> h1.reports() =~= h0.reports().push(
                BoardAction::SetEndPosition,
            ))
            &&& (!h0.spec_attached() ==> h1.reports() =~= h0.reports())
        },
    }
}

/// Everything one delivery of an action promises: the marker records the
/// action's discriminator; an action whose discriminator the marker already
/// records changes nothing; any other action is dispatched as
/// [`spec_dispatched`] states.
pub open spec fn spec_delivery(
    a: Action,
    p0: ProcessedMarker,
    p1: ProcessedMarker,
    b0: MoveBuilder,
    b1: MoveBuilder,
    h0: HistoricalBoard,
    h1: HistoricalBoard,
    is_interactive: bool,
    r: Result<(), HistoricalBoardError>,
) -> bool {
    &&& p1.spec_last() == a.disc()
    &&& (a.disc() == p0.spec_last() ==> p1 == p0 && b1 == b0 && h1 == h0 && r is Ok)
    &&& (a.disc() != p0.spec_last() ==> spec_dispatched(
        a.payload(),
        b0,
        b1,
        h0,
        h1,
        is_interactive,
        r,
    ))
}

/// Idempotence law: delivering the same constructed action twice in
/// succession mutates state only on the first delivery. After the first, the
/// marker records the action's discriminator, so the second delivery leaves
/// the marker, the move builder and the historical board exactly as they
/// were. The states are those before the first delivery, between the two,
/// and after the second.
pub proof fn lemma_second_delivery_noop(
    a: Action,
    p0: ProcessedMarker,
    p1: ProcessedMarker,
    p2: ProcessedMarker,
    b0: MoveBuilder,
    b1: MoveBuilder,
    b2: MoveBuilder,
    h0: HistoricalBoard,
    h1: HistoricalBoard,
    h2: HistoricalBoard,
    i1: bool,
    i2: bool,
    r1: Result<(), HistoricalBoardError>,
    r2: Result<(), HistoricalBoardError>,
)
    requires
        spec_delivery(a, p0, p1, b0, b1, h0, h1, i1, r1),
        spec_delivery(a, p1, p2, b1, b2, h1, h2, i2, r2),
    ensures
        p2 == p1,
        b2 == b1,
        h2 == h1,
        r2 is Ok,
{
}

/// Applies an injected action at most once.
///
/// An action whose discriminator equals the processed marker was already
/// handled in an earlier pass: nothing changes. Otherwise the marker takes
/// the action's discriminator — so a second delivery of the same action is a
/// no-op, as [`lemma_second_delivery_noop`] states — and the payload is
/// dispatched as [`spec_dispatched`] states. Only a malformed FEN in a
/// position replacement is surfaced; a rejected move is dropped with no other
/// effect.
pub fn apply_if_unprocessed(
    action: &Action,
    processed: &mut ProcessedMarker,
    builder: &mut MoveBuilder,
    board: &mut HistoricalBoard,
    is_interactive: bool,
) -> (r: Result<(), HistoricalBoardError>)
    requires
        old(builder).wf(),
        old(board).wf(),
    ensures
        final(builder).wf(),
        final(board).wf(),
        spec_delivery(
            *action,
            *old(processed),
            *final(processed),
            *old(builder),
            *final(builder),
            *old(board),
            *final(board),
            is_interactive,
            r,
        ),
{
    if processed.last == action.discriminator {
        return Ok(());
    }
    processed.last = action.discriminator;
    match &action.action {
        ActionInner::MakeMove(text) => {
            if is_interactive {
                let _ = builder.apply_san_move(text.as_str(), board.current_board_view());
            }
            Ok(())
        },
        ActionInner::Revert => {
            if is_interactive {
                match board.last_move() {
                    Some(m) => builder.revert_move(&m),
                    None => {},
                }
            }
            Ok(())
        },
        ActionInner::SetPosition(fen) => board.replace_position(fen.as_str()),
        ActionInner::StepBack => {
            match board.get_previous_move() {
                Some(m) => builder.step_back(&m),
                None => {},
            }
            Ok(())
        },
        ActionInner::StepForward => {
            match board.get_next_move() {
                Some(m) => builder.step_forward(&m),
                None => {},
            }
            Ok(())
        },
        ActionInner::SetStart => {
            board.set_start();
            Ok(())
        },
        ActionInner::SetEnd => {
            board.set_end();
            Ok(())
        },
    }
}

/// Hands a host a queue of constructed actions to inject into a board: the
/// client owns the sequencer, and the host drains the queued actions and
/// delivers them, in order, to [`apply_if_unprocessed`].
pub struct ChessboardClient {
    seq: ActionSequencer,
    pending: Vec<Action>,
}

impl ChessboardClient {
    /// The actions queued and not yet drained.
    pub closed spec fn spec_pending(self) -> Seq<Action> {
        self.pending@
    }

    /// The discriminator the next queued action will carry.
    pub closed spec fn spec_next(self) -> u32 {
        self.seq.spec_next()
    }

    pub fn new() -> (r: ChessboardClient)
        ensures
            r.spec_pending() =~= Seq::<Action>::empty(),
            r.spec_next() == 0,
    {
        ChessboardClient { seq: ActionSequencer::new(), pending: Vec::new() }
    }

    /// Queues an action making the move written in `uci`.
    pub fn make_move(&mut self, uci: &str)
        ensures
            final(self).spec_pending().len() == old(self).spec_pending().len() + 1,
            final(self).spec_pending().take(old(self).spec_pending().len() as int) == old(
                self,
            ).spec_pending(),
            final(self).spec_pending().last().disc() == old(self).spec_next(),
            final(self).spec_pending().last().payload() matches ActionInner::MakeMove(s) && s@
                == uci@,
            final(self).spec_next() == spec_next_disc(old(self).spec_next()),
    {
        let a = Action::make_move(uci, &mut self.seq);
        self.pending.push(a);
        proof {
            assert(self.spec_pending().take(old(self).spec_pending().len() as int)
                =~= old(self).spec_pending());
        }
    }

    /// Queues an action reverting the last applied move.
    pub fn revert_move(&mut self)
        ensures
            final(self).spec_pending().len() == old(self).spec_pending().len() + 1,
            final(self).spec_pending().take(old(self).spec_pending().len() as int) == old(
                self,
            ).spec_pending(),
            final(self).spec_pending().last().disc() == old(self).spec_next(),
            final(self).spec_pending().last().payload() is Revert,
            final(self).spec_next() == spec_next_disc(old(self).spec_next()),
    {
        let a = Action::revert_move(&mut self.seq);
        self.pending.push(a);
        proof {
            assert(self.spec_pending().take(old(self).spec_pending().len() as int)
                =~= old(self).spec_pending());
        }
    }

    /// Drains the queued actions, in the order they were queued.
    pub fn take_actions(&mut self) -> (r: Vec<Action>)
        ensures
            r@ == old(self).spec_pending(),
            final(self).spec_pending() =~= Seq::<Action>::empty(),
            final(self).spec_next() == old(self).spec_next(),
    {
        let mut drained: Vec<Action> = Vec::new();
        core::mem::swap(&mut self.pending, &mut drained);
        drained
    }
}

} // verus!
