use vstd::prelude::*;

use crate::oracle::MoveData;
use crate::position::Position;
use crate::types::{
    spec_cell_of_index, spec_file_char, spec_kind_of_index, spec_kind_promo_char, spec_promo_char,
    spec_rank_char, spec_uci, Cell, Coord, MoveKind, PromotePiece,
};
use vstd::string::*;

verus! {

/// Mathematical view of a move: its squares, its kind, and the contents of
/// its source square on the board it was validated against.
pub ghost struct MoveView {
    pub src: Coord,
    pub dst: Coord,
    pub kind: MoveKind,
    pub src_cell: Cell,
}

impl MoveView {
    pub open spec fn wf(self) -> bool {
        &&& self.src.wf()
        &&& self.dst.wf()
        &&& self.kind != MoveKind::Null
        &&& self.src_cell matches Cell::Occupied { .. }
    }
}

/// A move the rules engine has produced. The engine's own move value is kept
/// for applying and rendering the move; the squares, the kind and the source
/// cell are its plain data, read out of the engine value when the move was
/// validated. Every value of this type comes from the engine's parsers, so
/// the plain data always describes the engine value it sits beside.
pub struct ChessMove {
    pub(crate) raw: owlchess::moves::Move,
    pub(crate) src: Coord,
    pub(crate) dst: Coord,
    pub(crate) kind: MoveKind,
    pub(crate) src_cell: Cell,
}

impl View for ChessMove {
    type V = MoveView;

    closed spec fn view(&self) -> MoveView {
        MoveView { src: self.src, dst: self.dst, kind: self.kind, src_cell: self.src_cell }
    }
}

impl Clone for ChessMove {
    fn clone(&self) -> (r: Self)
        ensures
            r@ == self@,
    {
        ChessMove {
            raw: self.raw,
            src: self.src,
            dst: self.dst,
            kind: self.kind,
            src_cell: self.src_cell,
        }
    }
}

impl ChessMove {
    pub open spec fn wf(self) -> bool {
        self@.wf()
    }

    /// Source square of the move.
    pub fn src(&self) -> (r: Coord)
        ensures
            r == self@.src,
    {
        self.src
    }

    /// Destination square of the move.
    pub fn dst(&self) -> (r: Coord)
        ensures
            r == self@.dst,
    {
        self.dst
    }

    /// Kind of the move.
    pub fn kind(&self) -> (r: MoveKind)
        ensures
            r == self@.kind,
    {
        self.kind
    }

    /// Contents of the source square on the board the move was validated against.
    pub fn src_cell(&self) -> (r: Cell)
        ensures
            r == self@.src_cell,
    {
        self.src_cell
    }

    /// Decodes what the rules engine handed back into a [`ChessMove`].
    pub(crate) fn from_data(d: MoveData) -> (m: ChessMove)
        requires
            d.wf(),
        ensures
            m@.src == d.src,
            m@.dst == d.dst,
            m@.kind == spec_kind_of_index(d.kind as int),
            m@.src_cell == spec_cell_of_index(d.cell as int),
            m.wf(),
    {
        ChessMove {
            raw: d.raw,
            src: d.src,
            dst: d.dst,
            kind: crate::types::kind_of_index(d.kind),
            src_cell: crate::types::cell_of_index(d.cell),
        }
    }

}

/// One-character string naming a file: "a" for file 0 up to "h" for file 7.
pub fn file_str(f: u8) -> (s: &'static str)
    requires
        f < 8,
    ensures
        s@.len() == 1,
        s@[0] == spec_file_char(f as int),
{
    proof {
        reveal_strlit("a");
        reveal_strlit("b");
        reveal_strlit("c");
        reveal_strlit("d");
        reveal_strlit("e");
        reveal_strlit("f");
        reveal_strlit("g");
        reveal_strlit("h");
    }
    match f {
        0 => "a",
        1 => "b",
        2 => "c",
        3 => "d",
        4 => "e",
        5 => "f",
        6 => "g",
        _ => "h",
    }
}

/// One-character string naming a rank: rank index 0 is the top rank "8",
/// rank index 7 is the bottom rank "1".
pub fn rank_str(r: u8) -> (s: &'static str)
    requires
        r < 8,
    ensures
        s@.len() == 1,
        s@[0] == spec_rank_char(r as int),
{
    proof {
        reveal_strlit("8");
        reveal_strlit("7");
        reveal_strlit("6");
        reveal_strlit("5");
        reveal_strlit("4");
        reveal_strlit("3");
        reveal_strlit("2");
        reveal_strlit("1");
    }
    match r {
        0 => "8",
        1 => "7",
        2 => "6",
        3 => "5",
        4 => "4",
        5 => "3",
        6 => "2",
        _ => "1",
    }
}

/// One-character string with the letter of a promotion piece.
pub fn promo_piece_str(p: PromotePiece) -> (s: &'static str)
    ensures
        s@.len() == 1,
        s@[0] == spec_promo_char(p),
{
    proof {
        reveal_strlit("n");
        reveal_strlit("b");
        reveal_strlit("r");
        reveal_strlit("q");
    }
    match p {
        PromotePiece::Knight => "n",
        PromotePiece::Bishop => "b",
        PromotePiece::Rook => "r",
        PromotePiece::Queen => "q",
    }
}

/// Promotion letter written for an optional promotion piece.
pub open spec fn spec_promo_char_opt(promo: Option<PromotePiece>) -> Option<char> {
    match promo {
        Some(p) => Some(spec_promo_char(p)),
        None => None,
    }
}

/// Builds coordinate (UCI) move text from two squares and an optional
/// promotion piece. The text is ASCII.
pub fn uci_text(src: Coord, dst: Coord, promo: Option<PromotePiece>) -> (s: String)
    requires
        src.wf(),
        dst.wf(),
    ensures
        s@ == spec_uci(src, dst, spec_promo_char_opt(promo)),
        s.is_ascii(),
{
    let mut s = String::new();
    s.append(file_str(src.file));
    s.append(rank_str(src.rank));
    s.append(file_str(dst.file));
    s.append(rank_str(dst.rank));
    match promo {
        Some(p) => {
            s.append(promo_piece_str(p));
        },
        None => {},
    }
    proof {
        assert(s@ =~= spec_uci(src, dst, spec_promo_char_opt(promo)));
        assert forall|i: int| 0 <= i < s@.len() implies '\0' <= #[trigger] s@[i] <= '\u{7f}' by {
            lemma_uci_chars_ascii(src, dst, spec_promo_char_opt(promo));
        }
    }
    s
}

/// All characters of coordinate move text are ASCII.
proof fn lemma_uci_chars_ascii(src: Coord, dst: Coord, promo: Option<char>)
    requires
        src.wf(),
        dst.wf(),
        promo matches Some(c) ==> c == 'n' || c == 'b' || c == 'r' || c == 'q',
    ensures
        forall|i: int|
            0 <= i < spec_uci(src, dst, promo).len() ==> '\0' <= #[trigger] spec_uci(
                src,
                dst,
                promo,
            )[i] <= '\u{7f}',
{
}

/// Coordinate move text determines the squares and the promotion letter it
/// was written from: equal text means equal squares and equal letter.
pub proof fn lemma_uci_text_injective(
    s1: Coord,
    d1: Coord,
    p1: Option<char>,
    s2: Coord,
    d2: Coord,
    p2: Option<char>,
)
    requires
        s1.wf(),
        d1.wf(),
        s2.wf(),
        d2.wf(),
        spec_uci(s1, d1, p1) == spec_uci(s2, d2, p2),
    ensures
        s1 == s2,
        d1 == d2,
        p1 == p2,
{
    let u1 = spec_uci(s1, d1, p1);
    let u2 = spec_uci(s2, d2, p2);
    assert(u1.len() == u2.len());
    assert(u1[0] == u2[0] && u1[1] == u2[1] && u1[2] == u2[2] && u1[3] == u2[3]);
    if p1 is Some {
        assert(u1[4] == u2[4]);
    }
}

/// Renders a move in coordinate (UCI) notation: the source square, the
/// destination square, and the promotion letter when the move is a promotion.
/// This is the notation the rules engine itself writes for a move.
pub fn render_uci(m: &ChessMove) -> (s: String)
    requires
        m.wf(),
    ensures
        s@ == spec_uci(m@.src, m@.dst, spec_kind_promo_char(m@.kind)),
        s.is_ascii(),
{
    let promo = self::kind_promo(m.kind);
    uci_text(m.src, m.dst, promo)
}

/// Length of SAN move text once the rules engine's parser has stripped a
/// trailing check mark: it drops one final '#' or 'x', or one final '+' —
/// two if the text ends in "++".
pub open spec fn spec_san_stripped_len(t: Seq<char>) -> int {
    if t.len() >= 1 && (t.last() == '#' || t.last() == 'x') {
        t.len() - 1
    } else if t.len() >= 1 && t.last() == '+' {
        if t.len() >= 2 && t[t.len() - 2] == '+' {
            t.len() - 2
        } else {
            t.len() - 1
        }
    } else {
        t.len() as int
    }
}

/// SAN move text the rules engine's parser handles without panicking: once a
/// trailing check mark is stripped, text that starts with a piece letter
/// must still be at least three characters long — the parser slices two
/// characters off the end of what remains.
pub open spec fn spec_san_text_safe(t: Seq<char>) -> bool {
    spec_san_stripped_len(t) > 0 && (t[0] == 'N' || t[0] == 'B' || t[0] == 'R' || t[0] == 'Q'
        || t[0] == 'K') ==> spec_san_stripped_len(t) >= 3
}

/// A move's kind agrees with the kind the rules engine computes from the
/// board for its squares, unless the kind is a promotion — a promotion kind
/// is written in the move text itself. The engine's coordinate validator
/// returns only such moves.
pub open spec fn spec_kind_consistent(
    m: MoveView,
    b: crate::position::PositionView,
) -> bool {
    !m.kind.is_promotion() ==> m.kind == crate::position::spec_uci_kind(b, m.src, m.dst)
}

/// Round trip through coordinate notation: renders the move's UCI text and
/// validates that text on the board again. A move comes back exactly when
/// the engine accepts the rendered text — it does when the move is legal on
/// this board — and the move handed back has the same source, destination
/// and kind as the original.
pub fn reparse_uci(m: &ChessMove, board: &Position) -> (r: Option<ChessMove>)
    requires
        m.wf(),
        board.wf(),
        spec_kind_consistent(m@, board@),
    ensures
        r is Some <==> crate::oracle::uci_accepts(
            board@,
            spec_uci(m@.src, m@.dst, spec_kind_promo_char(m@.kind)),
        ),
        r matches Some(m2) ==> m2@.src == m@.src && m2@.dst == m@.dst && m2@.kind == m@.kind
            && m2.wf(),
{
    let text = render_uci(m);
    match crate::oracle::uci_legal_raw(text.as_str(), board) {
        Ok(d) => {
            proof {
                lemma_uci_text_injective(
                    m@.src,
                    m@.dst,
                    spec_kind_promo_char(m@.kind),
                    d.src,
                    d.dst,
                    spec_kind_promo_char(spec_kind_of_index(d.kind as int)),
                );
            }
            Some(ChessMove::from_data(d))
        },
        Err(_) => None,
    }
}

/// Promotion piece carried by a promotion move kind, if any, with its letter
/// matching the kind's promotion letter.
fn kind_promo(k: MoveKind) -> (r: Option<PromotePiece>)
    ensures
        spec_promo_char_opt(r) == spec_kind_promo_char(k),
{
    match k {
        MoveKind::PromoteKnight => Some(PromotePiece::Knight),
        MoveKind::PromoteBishop => Some(PromotePiece::Bishop),
        MoveKind::PromoteRook => Some(PromotePiece::Rook),
        MoveKind::PromoteQueen => Some(PromotePiece::Queen),
        _ => None,
    }
}

} // verus!
