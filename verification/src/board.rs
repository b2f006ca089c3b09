use vstd::prelude::*;
use crate::piece::{Color, Piece, Role};
use crate::square::Square;

verus! {

/// The pieces on the 64 squares; entry `i` is the square numbered `i`.
#[derive(Clone, Copy, Debug)]
pub struct Board {
    squares: [Option<Piece>; 64],
}

impl View for Board {
    type V = Seq<Option<Piece>>;

    closed spec fn view(&self) -> Seq<Option<Piece>> {
        self.squares@
    }
}

/// Whether the entry `i` of `b` holds the king of `color`.
pub open spec fn is_king_at(b: Seq<Option<Piece>>, color: Color, i: int) -> bool {
    b[i] == Some(Piece { color, role: Role::King })
}

/// The numbers below `n` of the squares that hold the king of `color`, in order.
pub open spec fn king_squares(b: Seq<Option<Piece>>, color: Color, n: int) -> Seq<int>
    decreases n,
{
    if n <= 0 {
        Seq::empty()
    } else {
        let s = king_squares(b, color, n - 1);
        if is_king_at(b, color, n - 1) {
            s.push(n - 1)
        } else {
            s
        }
    }
}

/// The square of the king of `color` if the board holds exactly one,
/// otherwise `None` (shakmaty's `Board::king_of`).
pub open spec fn spec_king_of(b: Seq<Option<Piece>>, color: Color) -> Option<Square> {
    let ks = king_squares(b, color, 64);
    if ks.len() == 1 {
        Some(Square::spec_from_index(ks[0] as u8))
    } else {
        None
    }
}

proof fn lemma_king_squares_bounds(b: Seq<Option<Piece>>, color: Color, n: int)
    requires
        0 <= n,
    ensures
        forall|j: int| 0 <= j < king_squares(b, color, n).len() ==> 0 <= #[trigger] king_squares(b, color, n)[j] < n,
        forall|j: int|
            0 <= j < king_squares(b, color, n).len() ==> is_king_at(b, color, #[trigger] king_squares(b, color, n)[j]),
        king_squares(b, color, n).len() <= n,
    decreases n,
{
    if n > 0 {
        lemma_king_squares_bounds(b, color, n - 1);
    }
}

/// The square that `spec_king_of` gives for a side holds that side's king.
pub proof fn lemma_king_of_holds_the_king(b: Seq<Option<Piece>>, color: Color)
    ensures
        spec_king_of(b, color) matches Some(sq) ==> b[sq.spec_index()] == Some(
            Piece { color, role: Role::King },
        ),
{
    lemma_king_squares_bounds(b, color, 64);
    let ks = king_squares(b, color, 64);
    if ks.len() == 1 {
        assert(is_king_at(b, color, ks[0]));
        Square::lemma_index_of_from_index(ks[0] as u8);
    }
}

impl Board {
    /// A board with no piece.
    pub fn empty() -> (b: Board)
        ensures
            b@ == Seq::new(64, |i: int| None::<Piece>),
    {
        let b = Board { squares: [None; 64] };
        assert(b@ =~= Seq::new(64, |i: int| None::<Piece>));
        b
    }

    /// Puts `p` (or nothing) on the square; the other squares keep their pieces.
    pub fn set_piece_at(&mut self, sq: Square, p: Option<Piece>)
        ensures
            final(self)@ == old(self)@.update(sq.spec_index(), p),
    {
        let i = sq.index() as usize;
        self.squares[i] = p;
    }

    /// The piece on the square, if any.
    pub fn piece_at(&self, sq: Square) -> (r: Option<Piece>)
        ensures
            r == self@[sq.spec_index()],
    {
        self.squares[sq.index() as usize]
    }

    /// The square of the king of `color` if there is exactly one such king.
    pub fn king_of(&self, color: Color) -> (r: Option<Square>)
        ensures
            r == spec_king_of(self@, color),
    {
        let king = Some(Piece { color, role: Role::King });
        let mut count: usize = 0;
        let mut last: u8 = 0;
        let mut i: u8 = 0;
        while i < 64
            invariant
                i <= 64,
                self.squares@.len() == 64,
                king == Some(Piece { color, role: Role::King }),
                count == king_squares(self@, color, i as int).len(),
                count > 0 ==> last == king_squares(self@, color, i as int).last(),
                count <= i,
            decreases 64 - i,
        {
            proof {
                lemma_king_squares_bounds(self@, color, i as int);
            }
            if self.squares[i as usize] == king {
                count = count + 1;
                last = i;
            }
            i = i + 1;
        }
        if count == 1 {
            proof {
                lemma_king_squares_bounds(self@, color, 64);
            }
            Some(Square::from_index(last))
        } else {
            None
        }
    }
}

} // verus!
