use vstd::prelude::*;

use crate::moves::{ChessMove, MoveView};
use crate::oracle;
use crate::position::{Position, PositionView};
use crate::types::{Cell, Color, Coord, Piece};

verus! {

/// A completed move as reported outward: its SAN text, and the piece and
/// colour that moved.
#[derive(Debug, Clone, PartialEq, Eq)]
pub struct SanMove {
    pub san_repr: String,
    pub piece: Piece,
    pub color: Color,
}

impl SanMove {
    pub fn new(san_repr: &str, piece: Piece, color: Color) -> (r: SanMove)
        ensures
            r.san_repr@ == san_repr@,
            r.piece == piece,
            r.color == color,
    {
        SanMove { san_repr: String::from_str(san_repr), piece, color }
    }
}

/// Navigation and move events the historical board reports outward.
#[derive(Debug, Clone, PartialEq, Eq)]
pub enum BoardAction {
    /// A move was applied to the board.
    Apply(SanMove),
    /// The viewed position stepped back over this move.
    StepBack(SanMove),
    /// The viewed position stepped forward over this move.
    StepForward(SanMove),
    /// The viewed position jumped to the start of the history.
    SetStartPosition,
    /// The viewed position jumped to the end of the history.
    SetEndPosition,
}

/// Error of the historical board: a malformed FEN string at construction, a
/// move the rules engine rejected at application, or a move refused because
/// the engine's 16-bit move clocks are at their limit and applying it would
/// overflow them.
#[derive(Debug)]
pub enum HistoricalBoardError {
    Fen(owlchess::board::FenParseError),
    Validation(owlchess::moves::ValidateError),
    Clocks,
}

/// One entry of the history: a position that no recorded move leaves yet, or
/// a position together with the move that was applied to it to reach the next
/// entry.
pub enum Step {
    Last(Position),
    Intermediate(Position, ChessMove),
}

impl Step {
    /// The position this step holds.
    pub open spec fn spec_board(self) -> PositionView {
        match self {
            Step::Last(b) => b@,
            Step::Intermediate(b, _) => b@,
        }
    }

    /// The move leading away from this step, if one is recorded.
    pub open spec fn spec_move(self) -> Option<MoveView> {
        match self {
            Step::Last(_) => None,
            Step::Intermediate(_, m) => Some(m@),
        }
    }

    /// An `Intermediate` step records a move with the position it was
    /// applied to: the move is legal there, its source square holds exactly
    /// its source cell, and the position's clocks admitted it — so the
    /// engine can always render the pair again.
    pub open spec fn wf(self) -> bool {
        match self {
            Step::Last(b) => b.wf(),
            Step::Intermediate(b, m) => b.wf() && m.wf() && b@.cells[m@.src.idx()] == m@.src_cell
                && oracle::legal_on(b@, m@) && crate::position::spec_clocks_ok(b@, m@),
        }
    }

    /// The position this step holds.
    pub fn as_board(&self) -> (r: &Position)
        ensures
            r@ == self.spec_board(),
            self.wf() ==> r.wf(),
    {
        match self {
            Step::Last(b) => b,
            Step::Intermediate(b, _) => b,
        }
    }

    /// The move leading away from this step, if one is recorded.
    pub fn as_move(&self) -> (r: Option<ChessMove>)
        ensures
            match r {
                Some(m) => self.spec_move() == Some(m@) && (self.wf() ==> m.wf()),
                None => self.spec_move() is None,
            },
    {
        match self {
            Step::Last(_) => None,
            Step::Intermediate(_, m) => Some(m.clone()),
        }
    }

    /// Takes the position out of this step.
    pub fn into_board(self) -> (r: Position)
        ensures
            r@ == self.spec_board(),
            self.wf() ==> r.wf(),
    {
        match self {
            Step::Last(b) => b,
            Step::Intermediate(b, _) => b,
        }
    }
}

/// The report buffer grew by exactly one action, built by `make` from the
/// description of the move `m` on the position `b`: its text is the
/// engine's SAN for that move and position, and its piece and colour are
/// what `b` holds on the move's source square. `r0` is the buffer before,
/// `r1` after.
pub open spec fn spec_reported(
    r0: Seq<BoardAction>,
    r1: Seq<BoardAction>,
    b: PositionView,
    m: MoveView,
    make: spec_fn(SanMove) -> BoardAction,
) -> bool {
    exists|sm: SanMove|
        #![trigger sm.san_repr@]
        r1 =~= r0.push(make(sm)) && sm.san_repr@ == oracle::san_of(
            b.cells,
            b.side,
            m.src,
            m.dst,
            m.kind,
        ) && b.cells[m.src.idx()].spec_color() == Some(sm.color) && b.cells[
            m.src.idx()].spec_piece() == Some(sm.piece)
}

/// The append-only, navigable history of board positions.
///
/// `history` always holds at least one step; its last entry is always a
/// `Last`, every earlier entry an `Intermediate`; `step_pointer` is always a
/// valid index and marks the position currently viewed, so navigation can
/// show past positions without losing the latest one. Completed moves and
/// navigation events are appended to `reports` when a report channel is
/// attached; the host drains them with [`HistoricalBoard::take_reports`].
pub struct HistoricalBoard {
    step_pointer: usize,
    history: Vec<Step>,
    attached: bool,
    reports: Vec<BoardAction>,
}

impl HistoricalBoard {
    /// The steps of the history.
    pub closed spec fn steps(self) -> Seq<Step> {
        self.history@
    }

    /// The index of the step currently viewed.
    pub closed spec fn pointer(self) -> int {
        self.step_pointer as int
    }

    /// Whether an outward report channel is attached.
    pub closed spec fn spec_attached(self) -> bool {
        self.attached
    }

    /// The outward reports not yet drained.
    pub closed spec fn reports(self) -> Seq<BoardAction> {
        self.reports@
    }

    /// The invariant of the history: at least one step, a valid pointer, a
    /// `Last` step at the end and `Intermediate` steps everywhere before it,
    /// all of them well formed.
    pub open spec fn wf(self) -> bool {
        &&& self.steps().len() >= 1
        &&& 0 <= self.pointer() < self.steps().len()
        &&& self.steps().last() is Last
        &&& forall|i: int|
            0 <= i < self.steps().len() - 1 ==> (#[trigger] self.steps()[i]) is Intermediate
        &&& forall|i: int| 0 <= i < self.steps().len() ==> (#[trigger] self.steps()[i]).wf()
    }

    /// Builds a history from a FEN position description: one `Last` step
    /// holding the described position, the pointer on it, no reports yet. It
    /// succeeds exactly when the text describes a position; a malformed FEN
    /// is the one error, and it is propagated, never defaulted.
    pub fn initialize(fen: &str, attached: bool) -> (r: Result<
        HistoricalBoard,
        HistoricalBoardError,
    >)
        ensures
            r is Ok <==> oracle::spec_fen_position(fen@) is Some,
            r matches Ok(h) ==> {
                &&& h.wf()
                &&& h.steps().len() == 1
                &&& h.steps()[0] is Last
                &&& Some(h.steps()[0].spec_board()) == oracle::spec_fen_position(fen@)
                &&& h.pointer() == 0
                &&& h.spec_attached() == attached
                &&& h.reports() =~= Seq::<BoardAction>::empty()
            },
            r matches Err(e) ==> e is Fen,
    {
        match oracle::parse_fen(fen) {
            Ok(board) => {
                let mut history: Vec<Step> = Vec::new();
                history.push(Step::Last(board));
                Ok(HistoricalBoard { step_pointer: 0, history, attached, reports: Vec::new() })
            },
            Err(e) => Err(HistoricalBoardError::Fen(e)),
        }
    }

    /// Applies a move to the currently viewed position.
    ///
    /// The steps after the pointer are discarded — a new move from a past
    /// position silently drops the undone future — and the viewed position
    /// becomes an `Intermediate` step holding the move, followed by a new
    /// `Last` step with exactly the position the engine computed for the
    /// move; the pointer moves to that new last step, and exactly one report
    /// goes outward if a channel is attached. It succeeds exactly when the
    /// viewed position's clocks admit the move and the engine accepts it as
    /// legal there; on refusal nothing changes and the error says which of
    /// the two it was.
    pub fn make_move(&mut self, m: ChessMove) -> (r: Result<(), HistoricalBoardError>)
        requires
            old(self).wf(),
            m.wf(),
        ensures
            final(self).wf(),
            r is Ok <==> crate::position::spec_clocks_ok(
                old(self).steps()[old(self).pointer()].spec_board(),
                m@,
            ) && oracle::legal_on(old(self).steps()[old(self).pointer()].spec_board(), m@),
            r matches Err(e) ==> *final(self) == *old(self) && (if crate::position::spec_clocks_ok(
                old(self).steps()[old(self).pointer()].spec_board(),
                m@,
            ) {
                e is Validation
            } else {
                e is Clocks
            }),
            r is Ok ==> {
                &&& final(self).steps().len() == old(self).pointer() + 2
                &&& forall|i: int|
                    0 <= i < old(self).pointer() ==> final(self).steps()[i] == old(self).steps()[i]
                &&& final(self).steps()[old(self).pointer()] matches Step::Intermediate(b, mm)
                    && b@ == old(self).steps()[old(self).pointer()].spec_board() && mm@ == m@
                &&& final(self).steps().last() matches Step::Last(nb) && nb@ == oracle::spec_applied(
                    old(self).steps()[old(self).pointer()].spec_board(),
                    m@,
                ) && nb@.side == crate::types::spec_opposite(
                    old(self).steps()[old(self).pointer()].spec_board().side,
                )
                &&& final(self).pointer() == final(self).steps().len() - 1
                &&& final(self).spec_attached() == old(self).spec_attached()
                &&& crate::moves::spec_kind_consistent(
                    m@,
                    old(self).steps()[old(self).pointer()].spec_board(),
                ) ==> oracle::uci_accepts(
                    old(self).steps()[old(self).pointer()].spec_board(),
                    crate::types::spec_uci(
                        m@.src,
                        m@.dst,
                        crate::types::spec_kind_promo_char(m@.kind),
                    ),
                )
                &&& old(self).spec_attached() ==> spec_reported(
                    old(self).reports(),
                    final(self).reports(),
                    old(self).steps()[old(self).pointer()].spec_board(),
                    m@,
                    |sm: SanMove| BoardAction::Apply(sm),
                )
                &&& !old(self).spec_attached() ==> final(self).reports() =~= old(self).reports()
            },
    {
        let viewed = &self.history[self.step_pointer];
        let board_ref = viewed.as_board();
        if !clocks_admit(board_ref, &m) {
            return Err(HistoricalBoardError::Clocks);
        }
        let report: Option<SanMove> = match oracle::make_move_raw(board_ref, &m) {
            Err(e) => {
                return Err(HistoricalBoardError::Validation(e));
            },
            Ok(new_board) => {
                let report = if self.attached {
                    Some(san_description(board_ref, &m))
                } else {
                    None
                };
                let n = self.history.len();
                proof {
                    assert(self.step_pointer < n);
                }
                self.history.truncate(self.step_pointer + 1);
                let step = self.history.pop().unwrap();
                let old_board = step.into_board();
                self.history.push(Step::Intermediate(old_board, m));
                self.history.push(Step::Last(new_board));
                self.step_pointer = self.history.len() - 1;
                report
            },
        };
        if let Some(sm) = report {
            self.reports.push(BoardAction::Apply(sm));
        }
        Ok(())
    }

    /// The move recorded just before the viewed position, if the pointer is
    /// not at the start.
    pub fn get_previous_move(&self) -> (r: Option<ChessMove>)
        requires
            self.wf(),
        ensures
            r is None <==> self.pointer() == 0,
            r matches Some(m) ==> Some(m@) == self.steps()[self.pointer() - 1].spec_move()
                && m.wf(),
    {
        if self.step_pointer == 0 {
            return None;
        }
        self.history[self.step_pointer - 1].as_move()
    }

    /// The move recorded at the viewed position, if the pointer is not
    /// already at the last step.
    pub fn get_next_move(&self) -> (r: Option<ChessMove>)
        requires
            self.wf(),
        ensures
            r is None <==> self.pointer() == self.steps().len() - 1,
            r matches Some(m) ==> Some(m@) == self.steps()[self.pointer()].spec_move() && m.wf(),
    {
        if self.step_pointer == self.history.len() - 1 {
            return None;
        }
        self.history[self.step_pointer].as_move()
    }

    /// Moves the pointer one step back without touching the history; a no-op
    /// when the start is already viewed. Exactly one report of the move
    /// stepped over goes outward if a channel is attached.
    pub fn step_back(&mut self)
        requires
            old(self).wf(),
        ensures
            final(self).wf(),
            final(self).steps() == old(self).steps(),
            final(self).spec_attached() == old(self).spec_attached(),
            old(self).pointer() == 0 ==> *final(self) == *old(self),
            old(self).pointer() > 0 ==> {
                &&& final(self).pointer() == old(self).pointer() - 1
                &&& old(self).spec_attached() ==> (old(self).steps()[old(self).pointer()
                    - 1] matches Step::Intermediate(b, m) && spec_reported(
                    old(self).reports(),
                    final(self).reports(),
                    b@,
                    m@,
                    |sm: SanMove| BoardAction::StepBack(sm),
                ))
                &&& !old(self).spec_attached() ==> final(self).reports() =~= old(self).reports()
            },
    {
        if self.step_pointer == 0 {
            return;
        }
        self.step_pointer = self.step_pointer - 1;
        let report: Option<SanMove> = match &self.history[self.step_pointer] {
            Step::Intermediate(b, m) => {
                if self.attached {
                    Some(san_description(b, m))
                } else {
                    None
                }
            },
            Step::Last(_) => {
                proof {
                    assert(false);
                }
                None
            },
        };
        match report {
            Some(sm) => {
                self.reports.push(BoardAction::StepBack(sm));
            },
            None => {},
        }
    }

    /// Moves the pointer one step forward without touching the history; a
    /// no-op when the last step is already viewed. Exactly one report of the
    /// move stepped over goes outward if a channel is attached.
    pub fn step_forward(&mut self)
        requires
            old(self).wf(),
        ensures
            final(self).wf(),
            final(self).steps() == old(self).steps(),
            final(self).spec_attached() == old(self).spec_attached(),
            old(self).pointer() == old(self).steps().len() - 1 ==> *final(self) == *old(self),
            old(self).pointer() < old(self).steps().len() - 1 ==> {
                &&& final(self).pointer() == old(self).pointer() + 1
                &&& old(self).spec_attached() ==> (old(self).steps()[old(
                    self,
                ).pointer()] matches Step::Intermediate(b, m) && spec_reported(
                    old(self).reports(),
                    final(self).reports(),
                    b@,
                    m@,
                    |sm: SanMove| BoardAction::StepForward(sm),
                ))
                &&& !old(self).spec_attached() ==> final(self).reports() =~= old(self).reports()
            },
    {
        let report: Option<SanMove> = match &self.history[self.step_pointer] {
            Step::Last(_) => {
                return;
            },
            Step::Intermediate(b, m) => {
                if self.attached {
                    Some(san_description(b, m))
                } else {
                    None
                }
            },
        };
        let n = self.history.len();
        proof {
            assert(self.step_pointer < n - 1);
        }
        self.step_pointer = self.step_pointer + 1;
        match report {
            Some(sm) => {
                self.reports.push(BoardAction::StepForward(sm));
            },
            None => {},
        }
    }

    /// The last applied move: the move of the step just before the final one,
    /// if the history records any move.
    pub fn last_move(&self) -> (r: Option<ChessMove>)
        requires
            self.wf(),
        ensures
            r is None <==> self.steps().len() == 1,
            r matches Some(m) ==> Some(m@) == self.steps()[self.steps().len() - 2].spec_move()
                && m.wf(),
    {
        let n = self.history.len();
        if n >= 2 {
            self.history[n - 2].as_move()
        } else {
            None
        }
    }

    /// Removes the last applied move from the history: the final step is
    /// dropped, the position recorded before that move becomes the new
    /// `Last` step, and the move is returned; the pointer moves to the new
    /// last step. With no move recorded the history stays as it is, only the
    /// pointer is reset to the single step.
    pub fn revert_last_move(&mut self) -> (r: Option<ChessMove>)
        requires
            old(self).wf(),
        ensures
            final(self).wf(),
            final(self).spec_attached() == old(self).spec_attached(),
            final(self).reports() == old(self).reports(),
            old(self).steps().len() == 1 ==> final(self).steps() == old(self).steps() && final(self).pointer() == 0 && r is None,
            old(self).steps().len() >= 2 ==> {
                &&& final(self).steps().len() == old(self).steps().len() - 1
                &&& forall|i: int|
                    0 <= i < old(self).steps().len() - 2 ==> final(self).steps()[i] == old(self).steps()[i]
                &&& final(self).steps().last() matches Step::Last(b) && b@ == old(self).steps()[old(self).steps().len() - 2].spec_board()
                &&& final(self).pointer() == final(self).steps().len() - 1
                &&& r matches Some(m) && Some(m@) == old(self).steps()[old(self).steps().len()
                    - 2].spec_move()
            },
    {
        let last = self.history.pop().unwrap();
        match self.history.pop() {
            None => {
                self.history.push(last);
                self.step_pointer = 0;
                None
            },
            Some(Step::Intermediate(b, m)) => {
                self.history.push(Step::Last(b));
                self.step_pointer = self.history.len() - 1;
                Some(m)
            },
            Some(other) => {
                proof {
                    assert(false);
                }
                self.history.push(other);
                self.history.push(last);
                None
            },
        }
    }

    /// Side to move on the latest position, the last step of the history.
    pub fn side_to_move(&self) -> (r: Color)
        requires
            self.wf(),
        ensures
            r == self.steps().last().spec_board().side,
    {
        self.current_board().side()
    }

    /// Moves the pointer to the first step; reported outward if a channel is
    /// attached.
    pub fn set_start(&mut self)
        requires
            old(self).wf(),
        ensures
            final(self).wf(),
            final(self).steps() == old(self).steps(),
            final(self).spec_attached() == old(self).spec_attached(),
            final(self).pointer() == 0,
            old(self).spec_attached() ==> final(self).reports() =~= old(self).reports().push(
                BoardAction::SetStartPosition,
            ),
            !old(self).spec_attached() ==> final(self).reports() =~= old(self).reports(),
    {
        self.step_pointer = 0;
        if self.attached {
            self.reports.push(BoardAction::SetStartPosition);
        }
    }

    /// Moves the pointer to the last step; reported outward if a channel is
    /// attached.
    pub fn set_end(&mut self)
        requires
            old(self).wf(),
        ensures
            final(self).wf(),
            final(self).steps() == old(self).steps(),
            final(self).spec_attached() == old(self).spec_attached(),
            final(self).pointer() == final(self).steps().len() - 1,
            old(self).spec_attached() ==> final(self).reports() =~= old(self).reports().push(
                BoardAction::SetEndPosition,
            ),
            !old(self).spec_attached() ==> final(self).reports() =~= old(self).reports(),
    {
        self.step_pointer = self.history.len() - 1;
        if self.attached {
            self.reports.push(BoardAction::SetEndPosition);
        }
    }

    /// Discards the whole history and starts afresh at the given FEN
    /// position, keeping the report channel attachment and the reports not
    /// yet drained. It succeeds exactly when the text describes a position;
    /// a malformed FEN changes nothing and is surfaced.
    pub fn replace_position(&mut self, fen: &str) -> (r: Result<(), HistoricalBoardError>)
        requires
            old(self).wf(),
        ensures
            final(self).wf(),
            r is Ok <==> oracle::spec_fen_position(fen@) is Some,
            r matches Err(e) ==> *final(self) == *old(self) && e is Fen,
            r is Ok ==> {
                &&& final(self).steps().len() == 1
                &&& final(self).steps()[0] is Last
                &&& Some(final(self).steps()[0].spec_board()) == oracle::spec_fen_position(fen@)
                &&& final(self).pointer() == 0
                &&& final(self).spec_attached() == old(self).spec_attached()
                &&& final(self).reports() == old(self).reports()
            },
    {
        match oracle::parse_fen(fen) {
            Ok(board) => {
                let mut history: Vec<Step> = Vec::new();
                history.push(Step::Last(board));
                self.history = history;
                self.step_pointer = 0;
                Ok(())
            },
            Err(e) => Err(HistoricalBoardError::Fen(e)),
        }
    }

    /// The latest position: the board of the last step.
    pub fn current_board(&self) -> (r: &Position)
        requires
            self.wf(),
        ensures
            r@ == self.steps().last().spec_board(),
            r.wf(),
    {
        self.history[self.history.len() - 1].as_board()
    }

    /// The currently viewed position: the board of the step at the pointer.
    pub fn current_board_view(&self) -> (r: &Position)
        requires
            self.wf(),
        ensures
            r@ == self.steps()[self.pointer()].spec_board(),
            r.wf(),
    {
        self.history[self.step_pointer].as_board()
    }

    /// Number of steps the history holds.
    pub fn history_len(&self) -> (r: usize)
        ensures
            r == self.steps().len(),
    {
        self.history.len()
    }

    /// Index of the step currently viewed.
    pub fn viewed_index(&self) -> (r: usize)
        ensures
            r == self.pointer(),
    {
        self.step_pointer
    }

    /// Drains the outward reports accumulated so far, in the order they were
    /// produced.
    pub fn take_reports(&mut self) -> (r: Vec<BoardAction>)
        requires
            old(self).wf(),
        ensures
            final(self).wf(),
            r@ == old(self).reports(),
            final(self).reports() =~= Seq::<BoardAction>::empty(),
            final(self).steps() == old(self).steps(),
            final(self).pointer() == old(self).pointer(),
            final(self).spec_attached() == old(self).spec_attached(),
    {
        let mut drained: Vec<BoardAction> = Vec::new();
        core::mem::swap(&mut self.reports, &mut drained);
        drained
    }
}

/// Description of a legal move on the position it was, or is about to be,
/// applied to: the engine's SAN text, with the moving piece and colour read
/// off the board. Legality makes both the render-failure branch and the
/// empty-source-square branch provably unreachable.
fn san_description(board: &Position, m: &ChessMove) -> (sm: SanMove)
    requires
        board.wf(),
        m.wf(),
        board@.cells[m@.src.idx()] == m@.src_cell,
        oracle::legal_on(board@, m@),
        crate::position::spec_clocks_ok(board@, m@),
    ensures
        sm.san_repr@ == oracle::san_of(board@.cells, board@.side, m@.src, m@.dst, m@.kind),
        board@.cells[m@.src.idx()].spec_color() == Some(sm.color),
        board@.cells[m@.src.idx()].spec_piece() == Some(sm.piece),
{
    let text = match oracle::render_san_raw(m, board) {
        Ok(s) => s,
        Err(_) => {
            proof {
                assert(false);
            }
            String::new()
        },
    };
    let cell = board.get(m.src());
    match cell {
        Cell::Occupied { color, piece } => SanMove { san_repr: text, piece, color },
        Cell::Empty => {
            proof {
                assert(false);
            }
            SanMove { san_repr: text, piece: Piece::Pawn, color: Color::White }
        },
    }
}

/// Whether the position's 16-bit clocks admit applying this move without
/// the engine's unguarded increments overflowing.
fn clocks_admit(board: &Position, m: &ChessMove) -> (r: bool)
    requires
        board.wf(),
        m.wf(),
    ensures
        r == crate::position::spec_clocks_ok(board@, m@),
{
    let resets = match board.get(m.dst()) {
        Cell::Occupied { .. } => true,
        Cell::Empty => match m.src_cell() {
            Cell::Occupied { piece: Piece::Pawn, .. } => true,
            _ => false,
        },
    };
    let counter_ok = board.halfmove_counter() < 0xffff || resets;
    let number_ok = board.move_number() < 0xffff || match board.side() {
        Color::White => true,
        Color::Black => false,
    };
    counter_ok && number_ok
}

} // verus!
