use vstd::prelude::*;

use crate::moves::{
    lemma_uci_text_injective, spec_promo_char_opt, uci_text, ChessMove, MoveView,
};
use crate::oracle;
use crate::position::{spec_promotion_required, spec_uci_kind, Position, PositionView};
use crate::types::spec_uci;
use crate::types::{Cell, Color, Coord, MoveKind, Piece, PromotePiece};
use vstd::string::*;

verus! {

/// Why move text handed to [`MoveBuilder::apply_san_move`] or
/// [`MoveBuilder::put_uci_move`] was not turned into a move.
#[derive(Debug)]
pub enum MoveTextError {
    /// Text outside the subset this crate hands to the rules engine's
    /// parsers: not ASCII, or a piece move shorter than three characters.
    Unsupported,
    /// The engine rejected the text as SAN.
    San(owlchess::moves::san::ParseError),
    /// The engine rejected the text as coordinate move text.
    Uci(owlchess::moves::uci::ParseError),
}

/// The two steps of choosing a promotion. The picker is shown only in the
/// second step, one finalize tick after the destination square is known, so
/// that the move animation can play first.
#[derive(Clone, Copy, Debug, PartialEq, Eq, Structural)]
pub enum Promotion {
    /// The destination is known, the move-to-square animation still runs.
    PrePromotion { src: Coord, dst: Coord },
    /// The picker is visible and a promotion piece can be chosen.
    Promotion { src: Coord, dst: Coord },
}

impl Promotion {
    pub open spec fn spec_src(self) -> Coord {
        match self {
            Promotion::PrePromotion { src, .. } => src,
            Promotion::Promotion { src, .. } => src,
        }
    }

    pub open spec fn spec_dst(self) -> Coord {
        match self {
            Promotion::PrePromotion { dst, .. } => dst,
            Promotion::Promotion { dst, .. } => dst,
        }
    }

    pub open spec fn wf(self) -> bool {
        self.spec_src().wf() && self.spec_dst().wf()
    }

    /// Square the promoting pawn comes from.
    pub fn src(&self) -> (r: Coord)
        ensures
            r == self.spec_src(),
    {
        match self {
            Promotion::PrePromotion { src, .. } => *src,
            Promotion::Promotion { src, .. } => *src,
        }
    }

    /// Square the promoting pawn lands on.
    pub fn dst(&self) -> (r: Coord)
        ensures
            r == self.spec_dst(),
    {
        match self {
            Promotion::PrePromotion { dst, .. } => *dst,
            Promotion::Promotion { dst, .. } => *dst,
        }
    }

    /// While the move-to-square animation runs, the pawn animates from source
    /// to destination; once the picker is visible nothing animates.
    pub open spec fn spec_animations(self) -> Seq<(Coord, Coord)> {
        match self {
            Promotion::PrePromotion { src, dst } => seq![(src, dst)],
            Promotion::Promotion { .. } => seq![],
        }
    }
}

/// A fully resolved move, ready to be handed out by [`MoveBuilder::finalize`].
///
/// The three navigation variants hold a move exactly as the history records
/// it and only animate it: a reverted or stepped-back move is shown
/// travelling from its destination back to its source, a stepped-forward
/// move as it was played. None of them is ever applied to a board.
pub enum ApplicableMove {
    /// Built step by step by selecting squares and, if needed, a promotion piece.
    Manual(ChessMove),
    /// Injected at once as SAN or coordinate text.
    Automatic(ChessMove),
    /// The last applied move, about to be reverted: animated backwards.
    Revert(ChessMove),
    /// The move just before the viewed position: animated backwards.
    Previous(ChessMove),
    /// The move at the viewed position: animated as it was played.
    Next(ChessMove),
}

/// The view of `m` with source and destination swapped: the orientation a
/// backwards animation presents.
pub open spec fn spec_reversed(m: MoveView) -> MoveView {
    MoveView { src: m.dst, dst: m.src, kind: m.kind, src_cell: m.src_cell }
}

impl ApplicableMove {
    /// The move data this state presents: for the backwards-animating
    /// variants, the recorded move with its squares swapped.
    pub open spec fn spec_move(self) -> MoveView {
        match self {
            ApplicableMove::Manual(m) => m@,
            ApplicableMove::Automatic(m) => m@,
            ApplicableMove::Revert(m) => spec_reversed(m@),
            ApplicableMove::Previous(m) => spec_reversed(m@),
            ApplicableMove::Next(m) => m@,
        }
    }

    pub open spec fn wf(self) -> bool {
        self.spec_move().wf()
    }

    /// Squares that animate for this move: for a manually built castling move
    /// both the king's and the rook's legs, otherwise the presented squares.
    pub open spec fn spec_animations(self) -> Seq<(Coord, Coord)> {
        match self {
            ApplicableMove::Manual(m) => spec_support_animations(m@),
            _ => seq![(self.spec_move().src, self.spec_move().dst)],
        }
    }
}

/// Supporting animation of a manually built move. Castling is one logical
/// move with two geometric legs that must animate together: kingside moves
/// the king from file e to g and the rook from file h to f, queenside moves
/// the king from file e to c and the rook from file a to d, all on the rank
/// the king starts from. Every other move animates its own two squares.
pub open spec fn spec_support_animations(m: MoveView) -> Seq<(Coord, Coord)> {
    if m.kind == MoveKind::CastlingKingside {
        seq![
            ((Coord { file: 4, rank: m.src.rank }), (Coord { file: 6, rank: m.src.rank })),
            ((Coord { file: 7, rank: m.src.rank }), (Coord { file: 5, rank: m.src.rank })),
        ]
    } else if m.kind == MoveKind::CastlingQueenside {
        seq![
            ((Coord { file: 4, rank: m.src.rank }), (Coord { file: 2, rank: m.src.rank })),
            ((Coord { file: 0, rank: m.src.rank }), (Coord { file: 3, rank: m.src.rank })),
        ]
    } else {
        seq![(m.src, m.dst)]
    }
}

/// Action a finalized builder hands to the historical board.
pub enum MoveAction {
    /// Apply this move to the board.
    Apply(ChessMove),
    /// Revert the board's last applied move.
    Revert,
    /// Step one move back in the board's history.
    StepBack,
    /// Step one move forward in the board's history.
    StepForward,
}

/// Action a finalized [`ApplicableMove`] turns into.
pub open spec fn spec_finalize_action(am: ApplicableMove) -> MoveAction {
    match am {
        ApplicableMove::Manual(m) => MoveAction::Apply(m),
        ApplicableMove::Automatic(m) => MoveAction::Apply(m),
        ApplicableMove::Revert(_) => MoveAction::Revert,
        ApplicableMove::Previous(_) => MoveAction::StepBack,
        ApplicableMove::Next(_) => MoveAction::StepForward,
    }
}

/// First animation pair whose source square is `source`, if any, giving its
/// destination.
pub open spec fn spec_find_animation(anims: Seq<(Coord, Coord)>, source: Coord) -> Option<Coord>
    decreases anims.len(),
{
    if anims.len() == 0 {
        None
    } else if anims[0].0 == source {
        Some(anims[0].1)
    } else {
        spec_find_animation(anims.drop_first(), source)
    }
}

/// A found animation destination is one of the pairs' destinations, so it is
/// well formed whenever all pairs are.
proof fn lemma_find_animation_wf(anims: Seq<(Coord, Coord)>, source: Coord)
    requires
        forall|i: int| 0 <= i < anims.len() ==> (#[trigger] anims[i]).0.wf() && anims[i].1.wf(),
    ensures
        spec_find_animation(anims, source) matches Some(d) ==> d.wf(),
    decreases anims.len(),
{
    if anims.len() > 0 && anims[0].0 != source {
        assert(forall|i: int|
            0 <= i < anims.drop_first().len() ==> (#[trigger] anims.drop_first()[i]).0.wf()
                && anims.drop_first()[i].1.wf());
        lemma_find_animation_wf(anims.drop_first(), source);
    }
}

/// Sign of animation displacements: positive when the board is drawn from
/// white's side, negative from black's.
pub open spec fn spec_orientation(color: Color) -> int {
    match color {
        Color::White => 1,
        Color::Black => -1,
    }
}

/// Builder accumulating partial move input into an applicable move.
///
/// Exactly one state is active at a time, and every input from every state
/// yields a defined next state: selecting a piece of the side to move leaves
/// `Empty` for `Src`; selecting a legal destination leads to an applicable
/// move, or to the promotion flow when a promotion piece is still needed;
/// anything invalid falls back to `Empty`.
pub enum MoveBuilder {
    /// No square selected.
    Empty,
    /// A source square holding a piece of the side to move is selected.
    Src(Coord),
    /// A legal promotion move awaits its piece choice.
    Promotion(Promotion),
    /// A fully resolved move awaits [`MoveBuilder::finalize`].
    ApplicableMove(ApplicableMove),
}

/// The coordinate text a candidate move `(src, dst)` is probed with: a
/// hypothetical queen is appended when the move would need a promotion
/// choice, so the engine can classify the move before the real piece is
/// chosen.
pub open spec fn spec_candidate_probe(b: PositionView, src: Coord, dst: Coord) -> Seq<char> {
    spec_uci(
        src,
        dst,
        if spec_promotion_required(b, src, dst) {
            Some('q')
        } else {
            None
        },
    )
}

/// What the builder holds after a destination square was fed to it from
/// state `Src(src)`. The engine decides, and its verdict is named: when it
/// accepts the probe text and no promotion choice is needed, the builder
/// holds the validated move with exactly those squares; when it accepts and
/// a choice is needed, the builder waits in the first promotion step; when
/// it rejects, the builder is empty again — and in no other case.
pub open spec fn spec_candidate_outcome(
    new: MoveBuilder,
    b: PositionView,
    src: Coord,
    dst: Coord,
) -> bool {
    if crate::oracle::uci_accepts(b, spec_candidate_probe(b, src, dst)) {
        if spec_promotion_required(b, src, dst) {
            new == (MoveBuilder::Promotion(Promotion::PrePromotion { src, dst }))
        } else {
            new matches MoveBuilder::ApplicableMove(ApplicableMove::Manual(m)) && {
                &&& m@.src == src
                &&& m@.dst == dst
                &&& m.wf()
                &&& !m@.kind.is_promotion()
                &&& m@.kind == spec_uci_kind(b, src, dst)
                &&& b.cells[src.idx()] == m@.src_cell
                &&& m@.src_cell.spec_color() == Some(b.side)
                &&& oracle::legal_on(b, m@)
            }
        }
    } else {
        new == MoveBuilder::Empty
    }
}

/// What the builder holds after a promotion piece was chosen in the second
/// promotion step for the pending squares. The engine decides on the full
/// promotion text, and its verdict is named: on acceptance the builder holds
/// the validated move with those squares and the promotion kind of the
/// chosen piece, on rejection it is empty again — and in no other case.
pub open spec fn spec_promote_outcome(
    new: MoveBuilder,
    b: PositionView,
    src: Coord,
    dst: Coord,
    piece: PromotePiece,
) -> bool {
    if crate::oracle::uci_accepts(b, spec_uci(src, dst, Some(crate::types::spec_promo_char(piece)))) {
        new matches MoveBuilder::ApplicableMove(ApplicableMove::Manual(m)) && {
            &&& m@.src == src
            &&& m@.dst == dst
            &&& m@.kind == piece.spec_kind()
            &&& m.wf()
            &&& b.cells[src.idx()] == m@.src_cell
            &&& m@.src_cell.spec_color() == Some(b.side)
            &&& oracle::legal_on(b, m@)
        }
    } else {
        new == MoveBuilder::Empty
    }
}

impl MoveBuilder {
    pub open spec fn wf(self) -> bool {
        match self {
            MoveBuilder::Empty => true,
            MoveBuilder::Src(c) => c.wf(),
            MoveBuilder::Promotion(p) => p.wf(),
            MoveBuilder::ApplicableMove(am) => am.wf(),
        }
    }

    /// Animation pairs the current state asks the presentation to play.
    pub open spec fn spec_animations(self) -> Seq<(Coord, Coord)> {
        match self {
            MoveBuilder::Promotion(p) => p.spec_animations(),
            MoveBuilder::ApplicableMove(am) => am.spec_animations(),
            _ => seq![],
        }
    }

    /// A fresh builder with nothing selected.
    pub fn new() -> (r: MoveBuilder)
        ensures
            r == MoveBuilder::Empty,
    {
        MoveBuilder::Empty
    }

    /// Source square of the move being built, if one is known.
    pub fn src(&self) -> (r: Option<Coord>)
        ensures
            r == match *self {
                MoveBuilder::Src(src) => Some(src),
                MoveBuilder::Promotion(p) => Some(p.spec_src()),
                MoveBuilder::ApplicableMove(am) => Some(am.spec_move().src),
                _ => None::<Coord>,
            },
    {
        match self {
            MoveBuilder::Src(src) => Some(*src),
            MoveBuilder::Promotion(p) => Some(p.src()),
            MoveBuilder::ApplicableMove(am) => Some(am.src()),
            _ => None,
        }
    }

    /// Destination square of the move being built, if one is known.
    pub fn dst(&self) -> (r: Option<Coord>)
        ensures
            r == match *self {
                MoveBuilder::Promotion(p) => Some(p.spec_dst()),
                MoveBuilder::ApplicableMove(am) => Some(am.spec_move().dst),
                _ => None::<Coord>,
            },
    {
        match self {
            MoveBuilder::Promotion(p) => Some(p.dst()),
            MoveBuilder::ApplicableMove(am) => Some(am.dst()),
            _ => None,
        }
    }

    /// A move from `src` to `dst` needs a promotion choice exactly when a
    /// white pawn reaches rank 8 or a black pawn reaches rank 1.
    pub fn is_promotion_required(src: &Coord, dst: &Coord, board: &Position) -> (r: bool)
        requires
            src.wf(),
            dst.wf(),
            board.wf(),
        ensures
            r == spec_promotion_required(board@, *src, *dst),
    {
        let cell = board.get(*src);
        match cell {
            Cell::Occupied { color: Color::White, piece: Piece::Pawn } => dst.rank == 0,
            Cell::Occupied { color: Color::Black, piece: Piece::Pawn } => dst.rank == 7,
            _ => false,
        }
    }

    /// Feeds one selected square into the builder.
    ///
    /// From `Empty`, a square holding a piece of the side to move becomes the
    /// source; anything else is ignored. From `Src(src)`, selecting `src`
    /// again cancels the selection; any other square is tried as the
    /// destination of a candidate move, probed against the rules engine as
    /// coordinate text with a queen appended when a promotion choice would be
    /// needed. From any other state the builder resets to `Empty`.
    pub fn put_square_coord(&mut self, coord: Coord, board: &Position)
        requires
            old(self).wf(),
            coord.wf(),
            board.wf(),
        ensures
            final(self).wf(),
            *old(self) is Empty ==> *final(self) == (if board@.cells[coord.idx()].spec_color()
                == Some(board@.side) {
                MoveBuilder::Src(coord)
            } else {
                MoveBuilder::Empty
            }),
            *old(self) matches MoveBuilder::Src(src) ==> (src == coord ==> (*final(self)) is Empty)
                && (src != coord ==> spec_candidate_outcome(*final(self), board@, src, coord)),
            !(*old(self) is Empty || *old(self) is Src) ==> (*final(self)) is Empty,
    {
        let next: MoveBuilder = match &*self {
            MoveBuilder::Empty => {
                let cell = board.get(coord);
                let of_side_to_move = match cell.color() {
                    Some(c) => c == board.side(),
                    None => false,
                };
                if of_side_to_move {
                    MoveBuilder::Src(coord)
                } else {
                    MoveBuilder::Empty
                }
            },
            MoveBuilder::Src(src) => {
                let src = *src;
                if src == coord {
                    MoveBuilder::Empty
                } else {
                    let promo_required = Self::is_promotion_required(&src, &coord, board);
                    // Probing with a hypothetical queen lets the engine
                    // classify the move; the real piece is chosen later.
                    let promo = if promo_required {
                        Some(PromotePiece::Queen)
                    } else {
                        None
                    };
                    let text = uci_text(src, coord, promo);
                    match oracle::uci_legal_raw(text.as_str(), board) {
                        Ok(d) => {
                            proof {
                                lemma_uci_text_injective(
                                    src,
                                    coord,
                                    spec_promo_char_opt(promo),
                                    d.src,
                                    d.dst,
                                    crate::types::spec_kind_promo_char(
                                        crate::types::spec_kind_of_index(d.kind as int),
                                    ),
                                );
                            }
                            if !promo_required {
                                let m = ChessMove::from_data(d);
                                MoveBuilder::ApplicableMove(ApplicableMove::Manual(m))
                            } else {
                                MoveBuilder::Promotion(Promotion::PrePromotion { src, dst: coord })
                            }
                        },
                        Err(_) => MoveBuilder::Empty,
                    }
                }
            },
            _ => MoveBuilder::Empty,
        };
        *self = next;
    }

    /// Feeds one selected square into the builder, given as file and rank
    /// indices. See [`MoveBuilder::put_square_coord`].
    pub fn put_square(&mut self, file: u8, rank: u8, board: &Position)
        requires
            old(self).wf(),
            file < 8,
            rank < 8,
            board.wf(),
        ensures
            final(self).wf(),
            *old(self) is Empty ==> *final(self) == (if board@.cells[(Coord {
                file,
                rank,
            }).idx()].spec_color() == Some(board@.side) {
                MoveBuilder::Src(Coord { file, rank })
            } else {
                MoveBuilder::Empty
            }),
            *old(self) matches MoveBuilder::Src(src) ==> (src == (Coord { file, rank }) ==> (*final(self)) is Empty) && (src != (Coord { file, rank }) ==> spec_candidate_outcome(
                *final(self),
                board@,
                src,
                Coord { file, rank },
            )),
            !(*old(self) is Empty || *old(self) is Src) ==> (*final(self)) is Empty,
    {
        self.put_square_coord(Coord::from_parts(file, rank), board);
    }

    /// The pending promotion squares, only while the picker should render:
    /// in the second promotion step, and nowhere else.
    pub fn check_promotion(&self) -> (r: Option<(Coord, Coord)>)
        ensures
            r == match *self {
                MoveBuilder::Promotion(Promotion::Promotion { src, dst }) => Some((src, dst)),
                _ => None::<(Coord, Coord)>,
            },
    {
        match self {
            MoveBuilder::Promotion(Promotion::Promotion { src, dst }) => Some((*src, *dst)),
            _ => None,
        }
    }

    /// Chooses the promotion piece. Valid only in the second promotion step:
    /// the full promotion move is validated against the rules engine and
    /// becomes applicable, or the builder resets to `Empty`; from any other
    /// state the builder resets to `Empty`.
    pub fn promote(&mut self, piece: PromotePiece, board: &Position)
        requires
            old(self).wf(),
            board.wf(),
        ensures
            final(self).wf(),
            *old(self) matches MoveBuilder::Promotion(Promotion::Promotion { src, dst })
                ==> spec_promote_outcome(*final(self), board@, src, dst, piece),
            !(*old(self) matches MoveBuilder::Promotion(Promotion::Promotion { .. })) ==> (*final(self)) is Empty,
    {
        let next: MoveBuilder = match &*self {
            MoveBuilder::Promotion(Promotion::Promotion { src, dst }) => {
                let src = *src;
                let dst = *dst;
                let text = uci_text(src, dst, Some(piece));
                match oracle::uci_legal_raw(text.as_str(), board) {
                    Ok(d) => {
                        proof {
                            lemma_uci_text_injective(
                                src,
                                dst,
                                spec_promo_char_opt(Some(piece)),
                                d.src,
                                d.dst,
                                crate::types::spec_kind_promo_char(
                                    crate::types::spec_kind_of_index(d.kind as int),
                                ),
                            );
                        }
                        let m = ChessMove::from_data(d);
                        MoveBuilder::ApplicableMove(ApplicableMove::Manual(m))
                    },
                    Err(_) => MoveBuilder::Empty,
                }
            },
            _ => MoveBuilder::Empty,
        };
        *self = next;
    }

    /// Injects a move written in SAN (the engine also accepts coordinate
    /// text). It succeeds exactly when the text lies in the subset handed to
    /// the engine's parser and the engine accepts it as a legal move; the
    /// builder then holds the validated move as an automatic applicable
    /// move. On failure it is left untouched and the error says why:
    /// `Unsupported` exactly when the text is outside the parser's subset —
    /// not ASCII, or a piece move shorter than three characters once a
    /// trailing check mark is stripped — the engine's own error otherwise.
    pub fn apply_san_move(&mut self, san: &str, board: &Position) -> (r: Result<
        (),
        MoveTextError,
    >)
        requires
            old(self).wf(),
            board.wf(),
        ensures
            final(self).wf(),
            r is Err ==> *final(self) == *old(self),
            r matches Err(MoveTextError::Unsupported) <==> !(san.is_ascii()
                && crate::moves::spec_san_text_safe(san@)),
            r is Ok <==> san.is_ascii() && crate::moves::spec_san_text_safe(san@)
                && oracle::san_accepts(board@, san@),
            r is Ok ==> (*final(self) matches MoveBuilder::ApplicableMove(
                ApplicableMove::Automatic(m),
            ) && m.wf() && board@.cells[m@.src.idx()] == m@.src_cell && m@.src_cell.spec_color()
                == Some(board@.side) && oracle::legal_on(board@, m@)),
            !(r matches Err(MoveTextError::Uci(_))),
    {
        if !san.is_ascii() {
            return Err(MoveTextError::Unsupported);
        }
        let n = san.unicode_len();
        // Length of the text once the engine's parser has stripped a
        // trailing check mark.
        let stripped: usize = if n >= 1 {
            let last = san.get_char(n - 1);
            if last == '#' || last == 'x' {
                n - 1
            } else if last == '+' {
                if n >= 2 && san.get_char(n - 2) == '+' {
                    n - 2
                } else {
                    n - 1
                }
            } else {
                n
            }
        } else {
            0
        };
        if stripped > 0 {
            let first = san.get_char(0);
            if (first == 'N' || first == 'B' || first == 'R' || first == 'Q' || first == 'K')
                && stripped < 3 {
                return Err(MoveTextError::Unsupported);
            }
        }
        match oracle::san_legal_raw(san, board) {
            Ok(d) => {
                let m = ChessMove::from_data(d);
                *self = MoveBuilder::ApplicableMove(ApplicableMove::Automatic(m));
                Ok(())
            },
            Err(e) => Err(MoveTextError::San(e)),
        }
    }

    /// Injects a move written as coordinate (UCI) text. It succeeds exactly
    /// when the text is ASCII and the engine accepts it as a legal move; the
    /// builder then holds the validated move, whose squares and promotion
    /// letter are exactly the ones written in the text. On failure it is
    /// left untouched, with `Unsupported` exactly when the text is not
    /// ASCII.
    pub fn put_uci_move(&mut self, uci: &str, board: &Position) -> (r: Result<(), MoveTextError>)
        requires
            old(self).wf(),
            board.wf(),
        ensures
            final(self).wf(),
            r is Err ==> *final(self) == *old(self),
            (r matches Err(MoveTextError::Unsupported)) <==> !uci.is_ascii(),
            r is Ok <==> uci.is_ascii() && oracle::uci_accepts(board@, uci@),
            r is Ok ==> (*final(self) matches MoveBuilder::ApplicableMove(
                ApplicableMove::Automatic(m),
            ) && m.wf() && uci@ == crate::types::spec_uci(
                m@.src,
                m@.dst,
                crate::types::spec_kind_promo_char(m@.kind),
            ) && board@.cells[m@.src.idx()] == m@.src_cell && m@.src_cell.spec_color() == Some(
                board@.side,
            ) && crate::moves::spec_kind_consistent(m@, board@) && oracle::legal_on(board@, m@)),
            !(r matches Err(MoveTextError::San(_))),
    {
        if !uci.is_ascii() {
            return Err(MoveTextError::Unsupported);
        }
        match oracle::uci_legal_raw(uci, board) {
            Ok(d) => {
                let m = ChessMove::from_data(d);
                *self = MoveBuilder::ApplicableMove(ApplicableMove::Automatic(m));
                Ok(())
            },
            Err(e) => Err(MoveTextError::Uci(e)),
        }
    }

    /// Prepares the animation for reverting `m`, the board's last applied
    /// move: the builder presents it backwards; it is only animated, never
    /// applied again.
    pub fn revert_move(&mut self, m: &ChessMove)
        requires
            m.wf(),
        ensures
            final(self).wf(),
            *final(self) matches MoveBuilder::ApplicableMove(ApplicableMove::Revert(r)) && r@
                == m@,
    {
        *self = MoveBuilder::ApplicableMove(ApplicableMove::Revert(m.clone()));
    }

    /// Prepares the animation for stepping back over `m`, the move recorded
    /// just before the viewed position: the builder presents it backwards; it
    /// is only animated, never applied again.
    pub fn step_back(&mut self, m: &ChessMove)
        requires
            m.wf(),
        ensures
            final(self).wf(),
            *final(self) matches MoveBuilder::ApplicableMove(ApplicableMove::Previous(r)) && r@
                == m@,
    {
        *self = MoveBuilder::ApplicableMove(ApplicableMove::Previous(m.clone()));
    }

    /// Prepares the animation for stepping forward over `m`, the move
    /// recorded at the viewed position: the builder holds the move as it was
    /// played, which is only animated, never applied.
    pub fn step_forward(&mut self, m: &ChessMove)
        requires
            m.wf(),
        ensures
            final(self).wf(),
            *final(self) matches MoveBuilder::ApplicableMove(ApplicableMove::Next(r)) && r@
                == m@,
    {
        *self = MoveBuilder::ApplicableMove(ApplicableMove::Next(m.clone()));
    }

    /// Animation pairs the current state asks the presentation to play.
    pub fn animations(&self) -> (r: Vec<(Coord, Coord)>)
        ensures
            r@ == self.spec_animations(),
    {
        let mut v: Vec<(Coord, Coord)> = Vec::new();
        match self {
            MoveBuilder::Promotion(Promotion::PrePromotion { src, dst }) => {
                v.push((*src, *dst));
            },
            MoveBuilder::ApplicableMove(ApplicableMove::Manual(m)) => {
                match m.kind() {
                    MoveKind::CastlingKingside => {
                        let rank = m.src().rank;
                        v.push((Coord { file: 4, rank }, Coord { file: 6, rank }));
                        v.push((Coord { file: 7, rank }, Coord { file: 5, rank }));
                    },
                    MoveKind::CastlingQueenside => {
                        let rank = m.src().rank;
                        v.push((Coord { file: 4, rank }, Coord { file: 2, rank }));
                        v.push((Coord { file: 0, rank }, Coord { file: 3, rank }));
                    },
                    _ => {
                        v.push((m.src(), m.dst()));
                    },
                }
            },
            MoveBuilder::ApplicableMove(ApplicableMove::Automatic(m)) => {
                v.push((m.src(), m.dst()));
            },
            MoveBuilder::ApplicableMove(ApplicableMove::Revert(m)) => {
                v.push((m.dst(), m.src()));
            },
            MoveBuilder::ApplicableMove(ApplicableMove::Previous(m)) => {
                v.push((m.dst(), m.src()));
            },
            MoveBuilder::ApplicableMove(ApplicableMove::Next(m)) => {
                v.push((m.src(), m.dst()));
            },
            _ => {},
        }
        proof {
            assert(v@ =~= self.spec_animations());
        }
        v
    }

    /// Destination of the animation that starts at `source`, if one does: the
    /// first animation pair whose source square is `source`.
    pub fn find_animation(&self, source: Coord) -> (r: Option<Coord>)
        ensures
            r == spec_find_animation(self.spec_animations(), source),
    {
        let anims = self.animations();
        proof {
            assert(anims@.skip(0) =~= anims@);
        }
        let mut i: usize = 0;
        while i < anims.len()
            invariant
                i <= anims@.len(),
                anims@ == self.spec_animations(),
                spec_find_animation(anims@.skip(i as int), source) == spec_find_animation(
                    anims@,
                    source,
                ),
            decreases anims@.len() - i,
        {
            proof {
                assert(anims@.skip(i as int)[0] == anims@[i as int]);
            }
            if anims[i].0 == source {
                return Some(anims[i].1);
            }
            proof {
                assert(anims@.skip(i as int).drop_first() =~= anims@.skip(i as int + 1));
            }
            i += 1;
        }
        proof {
            assert(anims@.skip(i as int) =~= Seq::<(Coord, Coord)>::empty());
        }
        None
    }

    /// Displacement, in percent of a square's size, of the animation that
    /// starts at `source`: one hundred times the file and rank distance from
    /// `source` to the animation's destination, negated when the board is
    /// drawn from black's side.
    pub fn animation_displacement(&self, source: Coord, color: Color) -> (r: Option<(i16, i16)>)
        requires
            self.wf(),
            source.wf(),
        ensures
            r == match spec_find_animation(self.spec_animations(), source) {
                Some(dst) => Some(
                    (
                        (spec_orientation(color) * (dst.file - source.file) * 100) as i16,
                        (spec_orientation(color) * (dst.rank - source.rank) * 100) as i16,
                    ),
                ),
                None => None::<(i16, i16)>,
            },
    {
        proof {
            self.lemma_animations_wf();
            lemma_find_animation_wf(self.spec_animations(), source);
        }
        match self.find_animation(source) {
            Some(dst) => {
                proof {
                    assert(dst.wf());
                }
                let dx: i16 = if color == Color::White {
                    dst.file as i16 - source.file as i16
                } else {
                    source.file as i16 - dst.file as i16
                };
                let dy: i16 = if color == Color::White {
                    dst.rank as i16 - source.rank as i16
                } else {
                    source.rank as i16 - dst.rank as i16
                };
                Some((dx * 100, dy * 100))
            },
            None => None,
        }
    }

    /// Every animation pair of a well-formed builder lies on the board.
    proof fn lemma_animations_wf(&self)
        requires
            self.wf(),
        ensures
            forall|i: int|
                0 <= i < self.spec_animations().len() ==> (#[trigger] self.spec_animations()[i]).0.wf()
                    && self.spec_animations()[i].1.wf(),
    {
    }

    /// Commits the current state.
    ///
    /// The first promotion step moves on to the second, picker-visible step
    /// and hands out nothing: this is the deliberate two-phase promotion
    /// protocol that lets the destination-square animation finish before the
    /// picker renders. An applicable move hands out its action and resets the
    /// builder. Any other state hands out nothing and stays as it is.
    pub fn finalize(&mut self) -> (r: Option<MoveAction>)
        requires
            old(self).wf(),
        ensures
            final(self).wf(),
            *old(self) matches MoveBuilder::Promotion(Promotion::PrePromotion { src, dst })
                ==> *final(self) == (MoveBuilder::Promotion(Promotion::Promotion { src, dst })) && r is None,
            *old(self) matches MoveBuilder::ApplicableMove(am) ==> (*final(self)) is Empty && r
                == Some(spec_finalize_action(am)),
            !(*old(self) matches MoveBuilder::Promotion(Promotion::PrePromotion { .. }) || *old(
                self,
            ) is ApplicableMove) ==> *final(self) == *old(self) && r is None,
    {
        let mut cur = MoveBuilder::Empty;
        core::mem::swap(self, &mut cur);
        match cur {
            MoveBuilder::Promotion(Promotion::PrePromotion { src, dst }) => {
                *self = MoveBuilder::Promotion(Promotion::Promotion { src, dst });
                None
            },
            MoveBuilder::ApplicableMove(am) => {
                match am {
                    ApplicableMove::Manual(m) => Some(MoveAction::Apply(m)),
                    ApplicableMove::Automatic(m) => Some(MoveAction::Apply(m)),
                    ApplicableMove::Revert(_) => Some(MoveAction::Revert),
                    ApplicableMove::Previous(_) => Some(MoveAction::StepBack),
                    ApplicableMove::Next(_) => Some(MoveAction::StepForward),
                }
            },
            other => {
                *self = other;
                None
            },
        }
    }
}

impl ApplicableMove {
    /// Source square of the presented move.
    pub fn src(&self) -> (r: Coord)
        ensures
            r == self.spec_move().src,
    {
        match self {
            ApplicableMove::Manual(m) => m.src(),
            ApplicableMove::Automatic(m) => m.src(),
            ApplicableMove::Revert(m) => m.dst(),
            ApplicableMove::Previous(m) => m.dst(),
            ApplicableMove::Next(m) => m.src(),
        }
    }

    /// Destination square of the presented move.
    pub fn dst(&self) -> (r: Coord)
        ensures
            r == self.spec_move().dst,
    {
        match self {
            ApplicableMove::Manual(m) => m.dst(),
            ApplicableMove::Automatic(m) => m.dst(),
            ApplicableMove::Revert(m) => m.src(),
            ApplicableMove::Previous(m) => m.src(),
            ApplicableMove::Next(m) => m.dst(),
        }
    }
}

} // verus!
