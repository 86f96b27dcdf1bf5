use vstd::prelude::*;

verus! {

/// Side to move, or the colour of a piece.
#[derive(Clone, Copy, Debug, PartialEq, Eq, Structural)]
pub enum Color {
    White,
    Black,
}

/// The opposite colour.
pub open spec fn spec_opposite(c: Color) -> Color {
    match c {
        Color::White => Color::Black,
        Color::Black => Color::White,
    }
}

/// Kind of a chess piece, without its colour.
#[derive(Clone, Copy, Debug, PartialEq, Eq, Structural)]
pub enum Piece {
    Pawn,
    King,
    Knight,
    Bishop,
    Rook,
    Queen,
}

/// Contents of one square: empty, or a piece of some colour.
#[derive(Clone, Copy, Debug, PartialEq, Eq, Structural)]
pub enum Cell {
    Empty,
    Occupied { color: Color, piece: Piece },
}

impl Cell {
    /// Colour of the piece on the square, if any.
    pub fn color(&self) -> (r: Option<Color>)
        ensures
            r == self.spec_color(),
    {
        match self {
            Cell::Empty => None,
            Cell::Occupied { color, .. } => Some(*color),
        }
    }

    /// Kind of the piece on the square, if any.
    pub fn piece(&self) -> (r: Option<Piece>)
        ensures
            r == self.spec_piece(),
    {
        match self {
            Cell::Empty => None,
            Cell::Occupied { piece, .. } => Some(*piece),
        }
    }

    pub open spec fn spec_color(self) -> Option<Color> {
        match self {
            Cell::Empty => None,
            Cell::Occupied { color, .. } => Some(color),
        }
    }

    pub open spec fn spec_piece(self) -> Option<Piece> {
        match self {
            Cell::Empty => None,
            Cell::Occupied { piece, .. } => Some(piece),
        }
    }
}

/// Coordinate of one of the 64 squares: a file index (0 is file a, 7 is file h)
/// and a rank index counted from the top of the board (0 is rank 8, 7 is rank 1).
#[derive(Clone, Copy, Debug, PartialEq, Eq, Structural)]
pub struct Coord {
    pub file: u8,
    pub rank: u8,
}

impl Coord {
    pub open spec fn wf(self) -> bool {
        self.file < 8 && self.rank < 8
    }

    /// Index of the square in rank-major order from the top-left corner,
    /// so that a8 has index 0 and h1 has index 63.
    pub open spec fn idx(self) -> int {
        self.rank * 8 + self.file
    }

    pub fn from_parts(file: u8, rank: u8) -> (c: Coord)
        requires
            file < 8,
            rank < 8,
        ensures
            c == (Coord { file, rank }),
            c.wf(),
    {
        Coord { file, rank }
    }

    /// Index of the square in rank-major order from the top-left corner.
    pub fn index(&self) -> (i: u8)
        requires
            self.wf(),
        ensures
            i == self.idx(),
            i < 64,
    {
        self.rank * 8 + self.file
    }
}

/// Kind of a move, as the rules engine classifies it.
#[derive(Clone, Copy, Debug, PartialEq, Eq, Structural)]
pub enum MoveKind {
    Null,
    Simple,
    CastlingKingside,
    CastlingQueenside,
    PawnDouble,
    Enpassant,
    PromoteKnight,
    PromoteBishop,
    PromoteRook,
    PromoteQueen,
}

impl MoveKind {
    pub open spec fn is_promotion(self) -> bool {
        self == MoveKind::PromoteKnight || self == MoveKind::PromoteBishop
            || self == MoveKind::PromoteRook || self == MoveKind::PromoteQueen
    }
}

/// Piece a pawn can promote to.
#[derive(Clone, Copy, Debug, PartialEq, Eq, Structural)]
pub enum PromotePiece {
    Knight,
    Bishop,
    Rook,
    Queen,
}

impl PromotePiece {
    /// Move kind that a promotion to this piece carries.
    pub open spec fn spec_kind(self) -> MoveKind {
        match self {
            PromotePiece::Knight => MoveKind::PromoteKnight,
            PromotePiece::Bishop => MoveKind::PromoteBishop,
            PromotePiece::Rook => MoveKind::PromoteRook,
            PromotePiece::Queen => MoveKind::PromoteQueen,
        }
    }
}

/// Square contents for a cell encoding used by the rules engine: 0 is an empty
/// square, 1 to 6 are white pawn, king, knight, bishop, rook and queen, and
/// 7 to 12 are the same pieces in black.
pub open spec fn spec_cell_of_index(i: int) -> Cell {
    if i == 0 {
        Cell::Empty
    } else if 1 <= i <= 6 {
        Cell::Occupied { color: Color::White, piece: spec_piece_of_index(i - 1) }
    } else {
        Cell::Occupied { color: Color::Black, piece: spec_piece_of_index(i - 7) }
    }
}

/// Piece for a piece index used by the rules engine: pawn 0, king 1, knight 2,
/// bishop 3, rook 4, queen 5.
pub open spec fn spec_piece_of_index(i: int) -> Piece {
    if i == 0 {
        Piece::Pawn
    } else if i == 1 {
        Piece::King
    } else if i == 2 {
        Piece::Knight
    } else if i == 3 {
        Piece::Bishop
    } else if i == 4 {
        Piece::Rook
    } else {
        Piece::Queen
    }
}

/// Decodes the rules engine's cell encoding into a [`Cell`].
pub fn cell_of_index(i: u8) -> (c: Cell)
    requires
        i < 13,
    ensures
        c == spec_cell_of_index(i as int),
{
    if i == 0 {
        Cell::Empty
    } else if i <= 6 {
        Cell::Occupied { color: Color::White, piece: piece_of_index(i - 1) }
    } else {
        Cell::Occupied { color: Color::Black, piece: piece_of_index(i - 7) }
    }
}

/// Decodes the rules engine's piece encoding into a [`Piece`].
pub fn piece_of_index(i: u8) -> (p: Piece)
    requires
        i < 6,
    ensures
        p == spec_piece_of_index(i as int),
{
    if i == 0 {
        Piece::Pawn
    } else if i == 1 {
        Piece::King
    } else if i == 2 {
        Piece::Knight
    } else if i == 3 {
        Piece::Bishop
    } else if i == 4 {
        Piece::Rook
    } else {
        Piece::Queen
    }
}

/// Move kind for the kind encoding used by the rules engine: null 0, simple 1,
/// kingside castling 2, queenside castling 3, pawn double step 4, en passant 5,
/// promotions to knight, bishop, rook and queen 6 to 9.
pub open spec fn spec_kind_of_index(i: int) -> MoveKind {
    if i == 0 {
        MoveKind::Null
    } else if i == 1 {
        MoveKind::Simple
    } else if i == 2 {
        MoveKind::CastlingKingside
    } else if i == 3 {
        MoveKind::CastlingQueenside
    } else if i == 4 {
        MoveKind::PawnDouble
    } else if i == 5 {
        MoveKind::Enpassant
    } else if i == 6 {
        MoveKind::PromoteKnight
    } else if i == 7 {
        MoveKind::PromoteBishop
    } else if i == 8 {
        MoveKind::PromoteRook
    } else {
        MoveKind::PromoteQueen
    }
}

/// Decodes the rules engine's move-kind encoding into a [`MoveKind`].
pub fn kind_of_index(i: u8) -> (k: MoveKind)
    requires
        i < 10,
    ensures
        k == spec_kind_of_index(i as int),
{
    if i == 0 {
        MoveKind::Null
    } else if i == 1 {
        MoveKind::Simple
    } else if i == 2 {
        MoveKind::CastlingKingside
    } else if i == 3 {
        MoveKind::CastlingQueenside
    } else if i == 4 {
        MoveKind::PawnDouble
    } else if i == 5 {
        MoveKind::Enpassant
    } else if i == 6 {
        MoveKind::PromoteKnight
    } else if i == 7 {
        MoveKind::PromoteBishop
    } else if i == 8 {
        MoveKind::PromoteRook
    } else {
        MoveKind::PromoteQueen
    }
}

/// Character naming a file in coordinate move text: 'a' for file 0 up to 'h' for file 7.
pub open spec fn spec_file_char(f: int) -> char {
    if f == 0 {
        'a'
    } else if f == 1 {
        'b'
    } else if f == 2 {
        'c'
    } else if f == 3 {
        'd'
    } else if f == 4 {
        'e'
    } else if f == 5 {
        'f'
    } else if f == 6 {
        'g'
    } else {
        'h'
    }
}

/// Character naming a rank in coordinate move text: rank index 0 is the top
/// rank '8', rank index 7 is the bottom rank '1'.
pub open spec fn spec_rank_char(r: int) -> char {
    if r == 0 {
        '8'
    } else if r == 1 {
        '7'
    } else if r == 2 {
        '6'
    } else if r == 3 {
        '5'
    } else if r == 4 {
        '4'
    } else if r == 5 {
        '3'
    } else if r == 6 {
        '2'
    } else {
        '1'
    }
}

/// Letter a promotion piece appends to coordinate move text.
pub open spec fn spec_promo_char(p: PromotePiece) -> char {
    match p {
        PromotePiece::Knight => 'n',
        PromotePiece::Bishop => 'b',
        PromotePiece::Rook => 'r',
        PromotePiece::Queen => 'q',
    }
}

/// Promotion letter carried by a move kind, if the kind is a promotion.
pub open spec fn spec_kind_promo_char(k: MoveKind) -> Option<char> {
    match k {
        MoveKind::PromoteKnight => Some('n'),
        MoveKind::PromoteBishop => Some('b'),
        MoveKind::PromoteRook => Some('r'),
        MoveKind::PromoteQueen => Some('q'),
        _ => None,
    }
}

/// Coordinate move text (UCI) for a move from `src` to `dst`, with `promo`
/// appended when present: the file and rank characters of the source square,
/// then of the destination square, then the promotion letter if any.
pub open spec fn spec_uci(src: Coord, dst: Coord, promo: Option<char>) -> Seq<char> {
    let base = seq![
        spec_file_char(src.file as int),
        spec_rank_char(src.rank as int),
        spec_file_char(dst.file as int),
        spec_rank_char(dst.rank as int),
    ];
    match promo {
        Some(c) => base.push(c),
        None => base,
    }
}

} // verus!
