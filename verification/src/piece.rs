use vstd::prelude::*;

verus! {

/// The two sides of a chess game.
#[derive(Clone, Copy, Debug, PartialEq, Eq, Structural)]
pub enum Color {
    Black,
    White,
}

/// The kind of a chess piece.
#[derive(Clone, Copy, Debug, PartialEq, Eq, Structural)]
pub enum Role {
    Pawn,
    Knight,
    Bishop,
    Rook,
    Queen,
    King,
}

/// A piece on the board: its side and its kind.
#[derive(Clone, Copy, Debug, PartialEq, Eq, Structural)]
pub struct Piece {
    pub color: Color,
    pub role: Role,
}

impl Role {
    /// The position of the kind in the order pawn, knight, bishop, rook,
    /// queen, king (the order of shakmaty's `Role::ALL`), from 0.
    pub open spec fn spec_index(self) -> int {
        match self {
            Role::Pawn => 0,
            Role::Knight => 1,
            Role::Bishop => 2,
            Role::Rook => 3,
            Role::Queen => 4,
            Role::King => 5,
        }
    }

    /// The position of the kind in the order pawn, knight, bishop, rook,
    /// queen, king (the order of shakmaty's `Role::ALL`), from 0.
    pub fn index(self) -> (r: usize)
        ensures
            r == self.spec_index(),
    {
        match self {
            Role::Pawn => 0,
            Role::Knight => 1,
            Role::Bishop => 2,
            Role::Rook => 3,
            Role::Queen => 4,
            Role::King => 5,
        }
    }

    /// The kind whose number is `n` in shakmaty's numbering (pawn 1 to king 6);
    /// other numbers give a pawn.
    pub fn from_number(n: u8) -> (r: Role)
        ensures
            1 <= n <= 6 ==> r.spec_index() == n - 1,
            !(1 <= n <= 6) ==> r == Role::Pawn,
    {
        match n {
            2 => Role::Knight,
            3 => Role::Bishop,
            4 => Role::Rook,
            5 => Role::Queen,
            6 => Role::King,
            _ => Role::Pawn,
        }
    }
}

impl Color {
    /// The other side.
    pub open spec fn spec_other(self) -> Color {
        match self {
            Color::Black => Color::White,
            Color::White => Color::Black,
        }
    }

    /// The other side.
    pub fn other(self) -> (r: Color)
        ensures
            r == self.spec_other(),
    {
        match self {
            Color::Black => Color::White,
            Color::White => Color::Black,
        }
    }

    /// The lower-case English name of the side, as shakmaty displays it.
    pub open spec fn spec_name(self) -> Seq<char> {
        match self {
            Color::Black => "black"@,
            Color::White => "white"@,
        }
    }

    /// The lower-case English name of the side, as shakmaty displays it.
    pub fn name(self) -> (r: &'static str)
        ensures
            r@ == self.spec_name(),
    {
        match self {
            Color::Black => "black",
            Color::White => "white",
        }
    }
}

} // verus!
