use vstd::prelude::*;
use crate::piece::{Color, Role};
use crate::square::Square;

verus! {

/// A chess move, with the same variants and fields as shakmaty's `Move`.
#[derive(Clone, Copy, Debug, PartialEq, Eq, Structural)]
pub enum ChessMove {
    /// A piece goes from one square to another, perhaps capturing and
    /// perhaps promoting.
    Normal { role: Role, from: Square, capture: Option<Role>, to: Square, promotion: Option<Role> },
    /// A pawn captures en passant.
    EnPassant { from: Square, to: Square },
    /// Castling; `rook` is the square of the rook that takes part.
    Castle { king: Square, rook: Square },
    /// A piece is dropped on the board (not part of standard chess).
    Put { role: Role, to: Square },
}

impl ChessMove {
    /// The origin square, `None` for a drop.
    pub open spec fn spec_from(self) -> Option<Square> {
        match self {
            ChessMove::Normal { from, .. } => Some(from),
            ChessMove::EnPassant { from, .. } => Some(from),
            ChessMove::Castle { king, .. } => Some(king),
            ChessMove::Put { .. } => None,
        }
    }

    /// The target square; for castling, the square of the rook.
    pub open spec fn spec_to(self) -> Square {
        match self {
            ChessMove::Normal { to, .. } => to,
            ChessMove::EnPassant { to, .. } => to,
            ChessMove::Castle { rook, .. } => rook,
            ChessMove::Put { to, .. } => to,
        }
    }

    /// The kind of the captured piece, if any.
    pub open spec fn spec_capture(self) -> Option<Role> {
        match self {
            ChessMove::Normal { capture, .. } => capture,
            ChessMove::EnPassant { .. } => Some(Role::Pawn),
            _ => None,
        }
    }

    /// Whether the move promotes a pawn.
    pub open spec fn spec_is_promotion(self) -> bool {
        self matches ChessMove::Normal { promotion: Some(_), .. }
    }

    /// The kind of the moving piece.
    pub open spec fn spec_role(self) -> Role {
        match self {
            ChessMove::Normal { role, .. } => role,
            ChessMove::Put { role, .. } => role,
            ChessMove::EnPassant { .. } => Role::Pawn,
            ChessMove::Castle { .. } => Role::King,
        }
    }

    /// The origin square, `None` for a drop.
    pub fn from(self) -> (r: Option<Square>)
        ensures
            r == self.spec_from(),
    {
        match self {
            ChessMove::Normal { from, .. } => Some(from),
            ChessMove::EnPassant { from, .. } => Some(from),
            ChessMove::Castle { king, .. } => Some(king),
            ChessMove::Put { .. } => None,
        }
    }

    /// The target square; for castling, the square of the rook.
    pub fn to(self) -> (r: Square)
        ensures
            r == self.spec_to(),
    {
        match self {
            ChessMove::Normal { to, .. } => to,
            ChessMove::EnPassant { to, .. } => to,
            ChessMove::Castle { rook, .. } => rook,
            ChessMove::Put { to, .. } => to,
        }
    }

    /// The kind of the captured piece, if any; a pawn for en passant.
    pub fn capture(self) -> (r: Option<Role>)
        ensures
            r == self.spec_capture(),
    {
        match self {
            ChessMove::Normal { capture, .. } => capture,
            ChessMove::EnPassant { .. } => Some(Role::Pawn),
            _ => None,
        }
    }

    /// Whether the move promotes a pawn.
    pub fn is_promotion(self) -> (r: bool)
        ensures
            r == self.spec_is_promotion(),
    {
        match self {
            ChessMove::Normal { promotion: Some(_), .. } => true,
            _ => false,
        }
    }

    /// The kind of the moving piece.
    pub fn role(self) -> (r: Role)
        ensures
            r == self.spec_role(),
    {
        match self {
            ChessMove::Normal { role, .. } => role,
            ChessMove::Put { role, .. } => role,
            ChessMove::EnPassant { .. } => Role::Pawn,
            ChessMove::Castle { .. } => Role::King,
        }
    }
}

/// How a finished game ended.
#[derive(Clone, Copy, Debug, PartialEq, Eq, Structural)]
pub enum Outcome {
    /// One side won (by checkmate in standard chess).
    Decisive { winner: Color },
    /// Nobody won.
    Draw,
}

impl Outcome {
    /// The result in PGN notation: "1-0", "0-1" or "1/2-1/2".
    pub open spec fn spec_as_str(self) -> Seq<char> {
        match self {
            Outcome::Decisive { winner: Color::White } => "1-0"@,
            Outcome::Decisive { winner: Color::Black } => "0-1"@,
            Outcome::Draw => "1/2-1/2"@,
        }
    }

    /// The result in PGN notation: "1-0", "0-1" or "1/2-1/2".
    pub fn as_str(self) -> (r: &'static str)
        ensures
            r@ == self.spec_as_str(),
    {
        match self {
            Outcome::Decisive { winner: Color::White } => "1-0",
            Outcome::Decisive { winner: Color::Black } => "0-1",
            Outcome::Draw => "1/2-1/2",
        }
    }
}

} // verus!
