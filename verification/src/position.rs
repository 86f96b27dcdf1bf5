use vstd::prelude::*;

use crate::oracle;
use crate::types::{Cell, Color, Coord, MoveKind, Piece};

verus! {

/// Mathematical view of a position: the contents of the 64 squares in
/// rank-major order from the top-left corner (a8 first, h1 last), the side
/// to move, the castling rights in the rules engine's encoding (an index
/// below 16), the square of the pawn that can be captured en passant, if
/// any, and the engine's two 16-bit clocks — the half-move counter for the
/// fifty-move rule and the move number. The first four determine which moves
/// the engine accepts; the clocks never make a move illegal, but applying a
/// move advances them, so they bound when a move can be applied at all.
pub ghost struct PositionView {
    pub cells: Seq<Cell>,
    pub side: Color,
    pub castling: u8,
    pub ep: Option<Coord>,
    pub counter: u16,
    pub number: u16,
}

/// A chess position. The rules engine's own board value is kept for
/// validating and applying moves; the square contents, the side to move, the
/// castling rights, the en-passant square and the clocks are read out of it
/// once, when the board is built, and are what the contracts of this crate
/// speak about. The engine value is never mutated, so the two stay in
/// agreement.
pub struct Position {
    pub(crate) raw: owlchess::board::Board,
    cells: Vec<Cell>,
    side: Color,
    castling: u8,
    ep: Option<Coord>,
    counter: u16,
    number: u16,
}

impl View for Position {
    type V = PositionView;

    closed spec fn view(&self) -> PositionView {
        PositionView {
            cells: self.cells@,
            side: self.side,
            castling: self.castling,
            ep: self.ep,
            counter: self.counter,
            number: self.number,
        }
    }
}

/// Applying `m` resets the engine's half-move counter: the destination
/// square is occupied (a capture) or the moving piece is a pawn; otherwise
/// the counter is incremented.
pub open spec fn spec_resets_halfmove(b: PositionView, m: crate::moves::MoveView) -> bool {
    b.cells[m.dst.idx()] != Cell::Empty || m.src_cell.spec_piece() == Some(Piece::Pawn)
}

/// Applying `m` on `b` stays within the engine's 16-bit clocks: the
/// half-move counter is below its limit or the move resets it, and the move
/// number is below its limit or does not advance — it advances only after
/// black's move. At the limits the engine's unguarded increments would
/// overflow, so no move is applied or rendered there.
pub open spec fn spec_clocks_ok(b: PositionView, m: crate::moves::MoveView) -> bool {
    &&& b.counter < 0xffff || spec_resets_halfmove(b, m)
    &&& b.number < 0xffff || b.side == Color::White
}

/// Rank index (from the top) on which pieces of this colour castle:
/// rank 1 for white, rank 8 for black.
pub open spec fn spec_castling_rank(c: Color) -> int {
    match c {
        Color::White => 7,
        Color::Black => 0,
    }
}

/// Rank index (from the top) a pawn of this colour starts a double step from.
pub open spec fn spec_double_src_rank(c: Color) -> int {
    match c {
        Color::White => 6,
        Color::Black => 1,
    }
}

/// Rank index (from the top) a pawn of this colour lands on after a double step.
pub open spec fn spec_double_dst_rank(c: Color) -> int {
    match c {
        Color::White => 4,
        Color::Black => 3,
    }
}

/// Rank index (from the top) a pawn of this colour promotes on.
pub open spec fn spec_promotion_rank(c: Color) -> int {
    match c {
        Color::White => 0,
        Color::Black => 7,
    }
}

/// Kind the rules engine assigns to a coordinate move without a promotion
/// letter: a pawn double step when a pawn moves between its double-step
/// ranks, an en passant capture when a pawn changes file onto an empty
/// square, a castling move when a king steps from its home square to the
/// castling destination, and a simple move otherwise.
pub open spec fn spec_uci_kind(b: PositionView, src: Coord, dst: Coord) -> MoveKind
    recommends
        b.cells.len() == 64,
        src.wf(),
        dst.wf(),
{
    match b.cells[src.idx()].spec_piece() {
        Some(Piece::Pawn) => {
            if src.rank == spec_double_src_rank(b.side) && dst.rank == spec_double_dst_rank(
                b.side,
            ) {
                MoveKind::PawnDouble
            } else if src.file != dst.file && b.cells[dst.idx()] == Cell::Empty {
                MoveKind::Enpassant
            } else {
                MoveKind::Simple
            }
        },
        Some(Piece::King) => {
            let home = (Coord { file: 4, rank: spec_castling_rank(b.side) as u8 });
            if src == home && dst == (Coord { file: 6, rank: home.rank }) {
                MoveKind::CastlingKingside
            } else if src == home && dst == (Coord { file: 2, rank: home.rank }) {
                MoveKind::CastlingQueenside
            } else {
                MoveKind::Simple
            }
        },
        _ => MoveKind::Simple,
    }
}

/// A move from `src` to `dst` needs a promotion choice exactly when `src`
/// holds a white pawn and `dst` is on rank 8, or `src` holds a black pawn and
/// `dst` is on rank 1.
pub open spec fn spec_promotion_required(b: PositionView, src: Coord, dst: Coord) -> bool
    recommends
        b.cells.len() == 64,
        src.wf(),
        dst.wf(),
{
    match b.cells[src.idx()] {
        Cell::Occupied { color, piece: Piece::Pawn } => dst.rank as int == spec_promotion_rank(
            color,
        ),
        _ => false,
    }
}

impl Position {
    pub open spec fn wf(self) -> bool {
        self@.cells.len() == 64
    }

    /// Builds a board from the rules engine's board value, reading out the
    /// 64 squares, the side to move, the castling rights, the en-passant
    /// square and the clocks.
    pub(crate) fn from_raw(raw: owlchess::board::Board) -> (b: Position)
        ensures
            b.wf(),
    {
        let side = oracle::side_of_raw(&raw);
        let castling = oracle::castling_index_raw(&raw);
        let ep = oracle::ep_source_raw(&raw);
        let (counter, number) = oracle::clocks_raw(&raw);
        let mut cells: Vec<Cell> = Vec::new();
        for i in 0..64u8
            invariant
                cells@.len() == i,
        {
            let idx = oracle::cell_index_at(&raw, i % 8, i / 8);
            cells.push(crate::types::cell_of_index(idx));
        }
        Position { raw, cells, side, castling, ep, counter, number }
    }

    /// Contents of the square at `c`.
    pub fn get(&self, c: Coord) -> (r: Cell)
        requires
            self.wf(),
            c.wf(),
        ensures
            r == self@.cells[c.idx()],
    {
        self.cells[c.index() as usize]
    }

    /// Side to move.
    pub fn side(&self) -> (r: Color)
        ensures
            r == self@.side,
    {
        self.side
    }

    /// The engine's half-move counter for the fifty-move rule.
    pub fn halfmove_counter(&self) -> (r: u16)
        ensures
            r == self@.counter,
    {
        self.counter
    }

    /// The engine's move number.
    pub fn move_number(&self) -> (r: u16)
        ensures
            r == self@.number,
    {
        self.number
    }
}

} // verus!
