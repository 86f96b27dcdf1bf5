use vstd::prelude::*;

use crate::action::Action;
use crate::types::Color;
use vstd::string::*;

verus! {

/// Piece artwork a host can pick for the board.
#[derive(Clone, Copy, Debug, PartialEq, Eq, Structural)]
pub enum PieceSet {
    Standard,
    Funny,
}

/// FEN description of the standard chess starting position.
pub open spec fn spec_default_position() -> Seq<char> {
    "rnbqkbnr/pppppppp/8/8/8/8/PPPPPPPP/RNBQKBNR w KQkq - 0 1"@
}

/// Configuration a host hands the board at creation time. Every field but
/// the player's colour is optional; [`ChessboardProps::complete`] fills the
/// defaults in.
pub struct ChessboardProps {
    /// Whether the board accepts player input; a display-only board does not.
    /// Interactive by default.
    pub is_interactive: Option<bool>,
    /// Colour the player plays for: those pieces are drawn at the bottom.
    pub player_color: Color,
    /// In single-player mode the player moves only their own pieces;
    /// otherwise the board allows free exploration. Exploration by default.
    pub single_player_mode: Option<bool>,
    /// The starting position in FEN notation; the standard starting position
    /// by default. It only seeds the board: to change the position of a
    /// live board, inject [`Action::set_position`].
    pub starting_position: Option<String>,
    /// Piece artwork; the standard set by default.
    pub pieces_set: Option<PieceSet>,
    /// An injected action to apply, if any.
    pub action: Option<Action>,
}

/// [`ChessboardProps`] with every optional value filled in.
pub struct CompleteChessboardProps {
    pub is_interactive: bool,
    pub color: Color,
    pub single_player_mode: bool,
    pub starting_position: String,
    pub pieces_set: PieceSet,
    pub action: Option<Action>,
}

impl ChessboardProps {
    /// Fills the absent optional values with their defaults: interactive,
    /// exploration mode, the standard starting position, the standard piece
    /// set.
    pub fn complete(self) -> (r: CompleteChessboardProps)
        ensures
            r.is_interactive == (match self.is_interactive {
                Some(b) => b,
                None => true,
            }),
            r.color == self.player_color,
            r.single_player_mode == (match self.single_player_mode {
                Some(b) => b,
                None => false,
            }),
            self.starting_position matches Some(s) ==> r.starting_position@ == s@,
            self.starting_position is None ==> r.starting_position@ == spec_default_position(),
            r.pieces_set == (match self.pieces_set {
                Some(p) => p,
                None => PieceSet::Standard,
            }),
            r.action == self.action,
    {
        CompleteChessboardProps {
            is_interactive: match self.is_interactive {
                Some(b) => b,
                None => true,
            },
            color: self.player_color,
            single_player_mode: match self.single_player_mode {
                Some(b) => b,
                None => false,
            },
            starting_position: match self.starting_position {
                Some(s) => s,
                None => String::from_str(Self::default_position()),
            },
            pieces_set: match self.pieces_set {
                Some(p) => p,
                None => PieceSet::Standard,
            },
            action: self.action,
        }
    }

    /// The standard chess starting position, in FEN notation.
    pub fn default_position() -> (r: &'static str)
        ensures
            r@ == spec_default_position(),
    {
        "rnbqkbnr/pppppppp/8/8/8/8/PPPPPPPP/RNBQKBNR w KQkq - 0 1"
    }
}

impl CompleteChessboardProps {
    /// Whether the board accepts the player's input right now: it must be
    /// configured interactive, and in single-player mode the next move must
    /// be the configured player's.
    pub fn is_interactive_for(&self, side_to_move: Color) -> (r: bool)
        ensures
            r == (self.is_interactive && (!self.single_player_mode || side_to_move == self.color)),
    {
        self.is_interactive && (!self.single_player_mode || side_to_move == self.color)
    }
}

} // verus!
