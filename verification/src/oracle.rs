//! Trusted layer around the `owlchess` rules engine. Every item here is
//! believed, not proved: each doc comment names the engine function relied on
//! and what its source shows about the result.

use vstd::prelude::*;

use crate::moves::{spec_san_text_safe, ChessMove, MoveView};
use crate::position::{spec_uci_kind, Position, PositionView};
use crate::types::{
    spec_cell_of_index, spec_kind_of_index, spec_kind_promo_char, spec_uci, Cell, Color, Coord,
    MoveKind,
};

verus! {

#[verifier::external_type_specification]
#[verifier::external_body]
pub struct ExOwlBoard(owlchess::board::Board);

#[verifier::external_type_specification]
#[verifier::external_body]
pub struct ExOwlMove(owlchess::moves::Move);

#[verifier::external_type_specification]
#[verifier::external_body]
pub struct ExFenParseError(owlchess::board::FenParseError);

#[verifier::external_type_specification]
#[verifier::external_body]
pub struct ExValidateError(owlchess::moves::ValidateError);

#[verifier::external_type_specification]
#[verifier::external_body]
pub struct ExUciParseError(owlchess::moves::uci::ParseError);

#[verifier::external_type_specification]
#[verifier::external_body]
pub struct ExSanParseError(owlchess::moves::san::ParseError);

/// What the rules engine hands back for a validated move: its own move value,
/// and the move's plain data in the engine's integer encodings.
pub(crate) struct MoveData {
    pub(crate) raw: owlchess::moves::Move,
    pub(crate) src: Coord,
    pub(crate) dst: Coord,
    pub(crate) kind: u8,
    pub(crate) cell: u8,
}

impl MoveData {
    pub(crate) open spec fn wf(self) -> bool {
        &&& self.src.wf()
        &&& self.dst.wf()
        &&& 1 <= self.kind < 10
        &&& 1 <= self.cell < 13
    }

    /// The plain move data, decoded.
    pub(crate) open spec fn view_of(self) -> MoveView {
        MoveView {
            src: self.src,
            dst: self.dst,
            kind: spec_kind_of_index(self.kind as int),
            src_cell: spec_cell_of_index(self.cell as int),
        }
    }
}

/// The SAN text of a legal move. For a move the engine accepts as legal, the
/// text depends only on the board cells, the side to move and the move's
/// squares and kind; no contract says what the text is on given values.
pub uninterp spec fn san_of(
    cells: Seq<Cell>,
    side: Color,
    src: Coord,
    dst: Coord,
    kind: MoveKind,
) -> Seq<char>;

/// Whether the engine accepts coordinate move text as a legal move on a
/// position. Acceptance is a function of the position's view — the cells,
/// the side to move, the castling rights and the en-passant square — and the
/// text alone; no contract says the verdict on given values.
pub uninterp spec fn uci_accepts(b: PositionView, text: Seq<char>) -> bool;

/// Whether the engine accepts SAN move text as a legal move on a position.
/// Like [`uci_accepts`], a function of the position's view and the text
/// alone.
pub uninterp spec fn san_accepts(b: PositionView, text: Seq<char>) -> bool;

/// Whether the engine accepts a move — given by its plain data — as legal on
/// a position: the verdict of owlchess's `Move::make`, a function of the
/// position's view and the move data alone. The engine's move value holds
/// exactly the four fields of [`MoveView`], so the data determines the
/// verdict.
pub uninterp spec fn legal_on(b: PositionView, m: MoveView) -> bool;

/// The position after a legal move is applied: the result of owlchess's
/// `Move::make`, a function of the position's view and the move data alone.
pub uninterp spec fn spec_applied(b: PositionView, m: MoveView) -> PositionView;

/// The position a FEN string describes, if the engine parses it: parsing is
/// a function of the text alone.
pub uninterp spec fn spec_fen_position(fen: Seq<char>) -> Option<PositionView>;

/// Relies on owlchess::Board::from_str: parses a FEN position description.
/// Parsing is deterministic in the text, never panics (the parser rejects
/// non-ASCII input up front and every error path returns one), and succeeds
/// exactly when the text describes a position, [`spec_fen_position`]. The
/// body reads the returned board out through the crate's own verified
/// [`Position::from_raw`]; nothing is claimed beyond the clauses here.
#[verifier::external_body]
pub(crate) fn parse_fen(fen: &str) -> (r: Result<Position, owlchess::board::FenParseError>)
    ensures
        r is Ok <==> spec_fen_position(fen@) is Some,
        r matches Ok(p) ==> p.wf() && Some(p@) == spec_fen_position(fen@),
{
    match <owlchess::board::Board as core::str::FromStr>::from_str(fen) {
        Ok(raw) => Ok(Position::from_raw(raw)),
        Err(e) => Err(e),
    }
}

/// Relies on owlchess::Board::side: the side to move of the position.
#[verifier::external_body]
pub(crate) fn side_of_raw(raw: &owlchess::board::Board) -> Color {
    match raw.side() {
        owlchess::Color::White => Color::White,
        owlchess::Color::Black => Color::Black,
    }
}

/// Relies on owlchess::Board::get2 and owlchess::Cell::index: the engine's
/// encoding of the square's contents, an index below 13.
#[verifier::external_body]
pub(crate) fn cell_index_at(raw: &owlchess::board::Board, file: u8, rank: u8) -> (i: u8)
    requires
        file < 8,
        rank < 8,
    ensures
        i < 13,
{
    let f = owlchess::File::from_index(file as usize);
    let r = owlchess::Rank::from_index(rank as usize);
    raw.get2(f, r).index() as u8
}

/// Relies on the public castling-rights field of owlchess's RawBoard and
/// CastlingRights::index: the engine's encoding of the castling rights, an
/// index below 16.
#[verifier::external_body]
pub(crate) fn castling_index_raw(raw: &owlchess::board::Board) -> (i: u8)
    ensures
        i < 16,
{
    raw.raw().castling.index() as u8
}

/// Relies on the public en-passant field of owlchess's RawBoard: the square
/// of the pawn that can be captured en passant, if any.
#[verifier::external_body]
pub(crate) fn ep_source_raw(raw: &owlchess::board::Board) -> (r: Option<Coord>)
    ensures
        r matches Some(c) ==> c.wf(),
{
    raw.raw().ep_source.map(
        |c: owlchess::Coord| Coord { file: c.file().index() as u8, rank: c.rank().index() as u8 },
    )
}

/// Relies on the public half-move counter and move number fields of
/// owlchess's RawBoard: the engine's two 16-bit clocks.
#[verifier::external_body]
pub(crate) fn clocks_raw(raw: &owlchess::board::Board) -> (u16, u16) {
    (raw.raw().move_counter, raw.raw().move_number)
}

/// Relies on owlchess::Move::from_uci_legal: parses coordinate move text and
/// validates it as a legal move on the board. Its source shows that it
/// succeeds exactly when the text is a legal move on the position — a
/// verdict determined by the position's view and the text, [`uci_accepts`] —
/// and that, on success, the returned move's squares and promotion letter
/// are exactly the ones written in the text; that the kind of a move without
/// a promotion letter is computed from the board as [`spec_uci_kind`]
/// states; that the move's source cell is the board's cell at the source
/// square and holds a piece of the side to move; and that the accepted move
/// is legal on the position, [`legal_on`]. The text must be ASCII: the
/// engine slices it at byte offsets and panics on a character boundary
/// inside a multi-byte character.
#[verifier::external_body]
pub(crate) fn uci_legal_raw(text: &str, board: &Position) -> (r: Result<
    MoveData,
    owlchess::moves::uci::ParseError,
>)
    requires
        text.is_ascii(),
        board.wf(),
    ensures
        r is Ok <==> uci_accepts(board@, text@),
        r matches Ok(d) ==> {
            &&& d.wf()
            &&& d.src != d.dst
            &&& text@ == spec_uci(d.src, d.dst, spec_kind_promo_char(spec_kind_of_index(d.kind as int)))
            &&& board@.cells[d.src.idx()] == spec_cell_of_index(d.cell as int)
            &&& spec_cell_of_index(d.cell as int).spec_color() == Some(board@.side)
            &&& legal_on(board@, d.view_of())
            &&& !spec_kind_of_index(d.kind as int).is_promotion() ==> spec_kind_of_index(
                d.kind as int,
            ) == spec_uci_kind(board@, d.src, d.dst)
        },
{
    match owlchess::moves::Move::from_uci_legal(text, &board.raw) {
        Ok(m) => Ok(MoveData {
            src: Coord { file: m.src().file().index() as u8, rank: m.src().rank().index() as u8 },
            dst: Coord { file: m.dst().file().index() as u8, rank: m.dst().rank().index() as u8 },
            kind: m.kind() as u8,
            cell: m.src_cell().index() as u8,
            raw: m,
        }),
        Err(e) => Err(e),
    }
}

/// Relies on owlchess::Move::from_san: parses a move in SAN (it also accepts
/// coordinate move text) and validates it as legal on the board. Its source
/// shows that it succeeds exactly when the text names a legal move on the
/// position — a verdict determined by the position's view and the text,
/// [`san_accepts`] — and that, on success, the move's source cell is the
/// board's cell at the source square and holds a piece of the side to move,
/// and the move is legal on the position, [`legal_on`].
/// The text must be ASCII, and what remains after the parser strips a
/// trailing check mark must not be a piece move shorter than three
/// characters ([`spec_san_text_safe`]): on such text the parser panics on a
/// slice bound, and on non-ASCII text on a character boundary.
#[verifier::external_body]
pub(crate) fn san_legal_raw(text: &str, board: &Position) -> (r: Result<
    MoveData,
    owlchess::moves::san::ParseError,
>)
    requires
        text.is_ascii(),
        board.wf(),
        spec_san_text_safe(text@),
    ensures
        r is Ok <==> san_accepts(board@, text@),
        r matches Ok(d) ==> {
            &&& d.wf()
            &&& d.src != d.dst
            &&& board@.cells[d.src.idx()] == spec_cell_of_index(d.cell as int)
            &&& spec_cell_of_index(d.cell as int).spec_color() == Some(board@.side)
            &&& legal_on(board@, d.view_of())
        },
{
    match owlchess::moves::Move::from_san(text, &board.raw) {
        Ok(m) => Ok(MoveData {
            src: Coord { file: m.src().file().index() as u8, rank: m.src().rank().index() as u8 },
            dst: Coord { file: m.dst().file().index() as u8, rank: m.dst().rank().index() as u8 },
            kind: m.kind() as u8,
            cell: m.src_cell().index() as u8,
            raw: m,
        }),
        Err(e) => Err(e),
    }
}

/// Relies on owlchess::Board::make_move: validates the move on the board and
/// returns the position after it, read out through the crate's own verified
/// [`Position::from_raw`] — nothing is claimed beyond the clauses here. Its
/// source shows that it succeeds exactly when the move is legal on the
/// position — the `Move::make` verdict, determined by the position's view
/// and the move's plain data, [`legal_on`] — that the result is the
/// determined applied position [`spec_applied`], whose side to move is the
/// opposite one; that a legal move's source cell is the board's cell at its
/// source square; and that the canonical coordinate text of a legal move
/// whose kind agrees with the board parses and validates back to this very
/// move, so the engine accepts it. The move values this crate holds all
/// come from the engine's own parsers, so the engine value is exactly the
/// plain data beside it, which the engine's validation requires to be well
/// formed. The engine increments its 16-bit clocks without a guard once a
/// move passes semilegality, so the clocks must not be at their limits
/// unless the move leaves them alone.
#[verifier::external_body]
pub(crate) fn make_move_raw(board: &Position, m: &ChessMove) -> (r: Result<
    Position,
    owlchess::moves::ValidateError,
>)
    requires
        board.wf(),
        crate::position::spec_clocks_ok(board@, m@),
    ensures
        r is Ok <==> legal_on(board@, m@),
        r matches Ok(p) ==> {
            &&& p.wf()
            &&& p@ == spec_applied(board@, m@)
            &&& p@.side == crate::types::spec_opposite(board@.side)
            &&& board@.cells[m@.src.idx()] == m@.src_cell
        },
        r is Ok && crate::moves::spec_kind_consistent(m@, board@) ==> uci_accepts(
            board@,
            spec_uci(m@.src, m@.dst, spec_kind_promo_char(m@.kind)),
        ),
{
    match board.raw.make_move(m.raw) {
        Ok(raw) => Ok(Position::from_raw(raw)),
        Err(e) => Err(e),
    }
}

/// Relies on owlchess::Move::styled with the SAN style: renders a move as
/// SAN text, [`san_of`] of the board and the move's plain data. Its source
/// shows that rendering validates the move with the same `Move::make`
/// verdict that [`legal_on`] names, so it succeeds exactly when the move is
/// legal on the board; it also applies the move to a clone to compute the
/// check mark, so the clocks must not be at their limits unless the move
/// leaves them alone. The engine reads the moving piece out of the move's
/// source cell, which must hold a piece.
#[verifier::external_body]
pub(crate) fn render_san_raw(m: &ChessMove, board: &Position) -> (r: Result<
    String,
    owlchess::moves::ValidateError,
>)
    requires
        m@.src_cell matches Cell::Occupied { .. },
        board.wf(),
        crate::position::spec_clocks_ok(board@, m@),
    ensures
        r is Ok <==> legal_on(board@, m@),
        r matches Ok(s) ==> s@ == san_of(board@.cells, board@.side, m@.src, m@.dst, m@.kind),
{
    match m.raw.styled(&board.raw, owlchess::moves::Style::San) {
        Ok(sm) => Ok(sm.to_string()),
        Err(e) => Err(e),
    }
}

} // verus!
