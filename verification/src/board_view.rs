//! What the board widget shows on each square, and where.

use vstd::prelude::*;
use crate::board::{lemma_king_of_holds_the_king, spec_king_of};
use crate::geometry::Rect;
use crate::moves::ChessMove;
use crate::piece::{Color, Piece, Role};
use crate::screen::{GameScreen, ScreenView};
use crate::square::Square;

verus! {

/// A background color of a cell.
#[derive(Clone, Copy, Debug, PartialEq, Eq, Structural)]
pub enum CellColor {
    /// A color given by its red, green and blue parts.
    Rgb(u8, u8, u8),
    /// The terminal's red.
    Red,
}

/// What a square of the board shows.
#[derive(Clone, Copy, Debug, PartialEq, Eq, Structural)]
pub enum CellContent {
    /// The piece on the square.
    Piece(Piece),
    /// A dot: the picked-up piece can move here.
    MoveHint,
    /// Nothing.
    Empty,
}

/// A square of the board as shown: its background and its content.
#[derive(Clone, Copy, Debug, PartialEq, Eq, Structural)]
pub struct BoardCell {
    pub background: CellColor,
    pub content: CellContent,
}

/// The color of a light (odd `rank + file`) or dark square.
pub open spec fn spec_square_color(rank: int, file: int) -> CellColor {
    if (rank + file) % 2 != 0 {
        CellColor::Rgb(240, 217, 181)
    } else {
        CellColor::Rgb(181, 136, 99)
    }
}

/// The color of a light (odd `rank + file`) or dark square.
pub fn square_color(rank: u8, file: u8) -> (r: CellColor)
    requires
        rank + file <= u8::MAX,
    ensures
        r == spec_square_color(rank as int, file as int),
{
    if (rank + file) % 2 != 0 {
        CellColor::Rgb(240, 217, 181)
    } else {
        CellColor::Rgb(181, 136, 99)
    }
}

/// The Unicode chess symbol of a piece, e.g. '♔' for the white king.
pub open spec fn piece_symbol(piece: Piece) -> char {
    match (piece.color, piece.role) {
        (Color::White, Role::King) => '♔',
        (Color::White, Role::Queen) => '♕',
        (Color::White, Role::Rook) => '♖',
        (Color::White, Role::Bishop) => '♗',
        (Color::White, Role::Knight) => '♘',
        (Color::White, Role::Pawn) => '♙',
        (Color::Black, Role::King) => '♚',
        (Color::Black, Role::Queen) => '♛',
        (Color::Black, Role::Rook) => '♜',
        (Color::Black, Role::Bishop) => '♝',
        (Color::Black, Role::Knight) => '♞',
        (Color::Black, Role::Pawn) => '♟',
    }
}

/// The Unicode chess symbol of a piece, as a string of one character.
pub fn piece_char(piece: Piece) -> (r: &'static str)
    ensures
        r@ == seq![piece_symbol(piece)],
{
    proof {
        reveal_strlit("♔");
        reveal_strlit("♕");
        reveal_strlit("♖");
        reveal_strlit("♗");
        reveal_strlit("♘");
        reveal_strlit("♙");
        reveal_strlit("♚");
        reveal_strlit("♛");
        reveal_strlit("♜");
        reveal_strlit("♝");
        reveal_strlit("♞");
        reveal_strlit("♟");
    }
    match (piece.color, piece.role) {
        (Color::White, Role::King) => "♔",
        (Color::White, Role::Queen) => "♕",
        (Color::White, Role::Rook) => "♖",
        (Color::White, Role::Bishop) => "♗",
        (Color::White, Role::Knight) => "♘",
        (Color::White, Role::Pawn) => "♙",
        (Color::Black, Role::King) => "♚",
        (Color::Black, Role::Queen) => "♛",
        (Color::Black, Role::Rook) => "♜",
        (Color::Black, Role::Bishop) => "♝",
        (Color::Black, Role::Knight) => "♞",
        (Color::Black, Role::Pawn) => "♟",
    }
}

/// The text of a square's content: the piece's symbol, a dot, or two spaces.
pub open spec fn spec_content_text(c: CellContent) -> Seq<char> {
    match c {
        CellContent::Piece(p) => seq![piece_symbol(p)],
        CellContent::MoveHint => seq!['·'],
        CellContent::Empty => seq![' ', ' '],
    }
}

impl CellContent {
    /// The text of the content: the piece's symbol, a dot, or two spaces.
    pub fn text(self) -> (r: &'static str)
        ensures
            r@ == spec_content_text(self),
    {
        match self {
            CellContent::Piece(p) => piece_char(p),
            CellContent::MoveHint => {
                proof {
                    reveal_strlit("·");
                }
                "·"
            },
            CellContent::Empty => {
                proof {
                    reveal_strlit("  ");
                }
                "  "
            },
        }
    }

    /// Whether the content is shown dimmed (the dot of a possible move).
    pub fn is_dim(self) -> (r: bool)
        ensures
            r == (self == CellContent::MoveHint),
    {
        match self {
            CellContent::MoveHint => true,
            _ => false,
        }
    }
}

/// The label of the row drawn for `rank` (0 is the bottom row, rank 1):
/// the digit '1' plus the rank.
pub fn rank_label(rank: u8) -> (r: char)
    requires
        rank <= 206,
    ensures
        r == (49 + rank) as char,
{
    (49u8 + rank) as char
}

/// The label of the column of `file`: 'a' plus the file.
pub fn file_label(file: u8) -> (r: char)
    requires
        file <= 158,
    ensures
        r == (97 + file) as char,
{
    (97u8 + file) as char
}

/// Whether some move in `moves` goes to `sq`.
pub open spec fn some_move_to(moves: Seq<ChessMove>, sq: Square) -> bool {
    exists|i: int| 0 <= i < moves.len() && #[trigger] moves[i].spec_to() == sq
}

/// The background of the square at `rank` and `file`: its own color, unless
/// it holds the picked-up piece or (else) the cursor; the squares of the
/// last move are highlighted over that, and the king of the side to move
/// is red when in check.
pub open spec fn spec_background(v: ScreenView, rank: int, file: int) -> CellColor {
    let snap = v.snapshot.unwrap();
    let sq = Square::spec_from_index((rank * 8 + file) as u8);
    let base = if v.selected == Some(sq) {
        CellColor::Rgb(130, 151, 105)
    } else if sq == v.cursor {
        CellColor::Rgb(100, 111, 64)
    } else {
        spec_square_color(rank, file)
    };
    let with_last = match snap.last_move {
        Some(m) => if m.spec_from() == Some(sq) || m.spec_to() == sq {
            CellColor::Rgb(205, 210, 106)
        } else {
            base
        },
        None => base,
    };
    if snap.is_check && spec_king_of(snap.board@, snap.turn) == Some(sq) {
        CellColor::Red
    } else {
        with_last
    }
}

/// The content of the square at `rank` and `file`: its piece; else a dot
/// where the picked-up piece can move; else nothing.
pub open spec fn spec_content(v: ScreenView, rank: int, file: int) -> CellContent {
    let snap = v.snapshot.unwrap();
    let sq = Square::spec_from_index((rank * 8 + file) as u8);
    match snap.board@[sq.spec_index()] {
        Some(p) => CellContent::Piece(p),
        None => if v.selected is Some && some_move_to(v.legal_from_selected, sq) {
            CellContent::MoveHint
        } else {
            CellContent::Empty
        },
    }
}

/// The square at `rank` and `file` as the board shows it; `None` before the
/// first state of the game arrives.
pub fn board_cell(screen: &GameScreen, rank: u8, file: u8) -> (r: Option<BoardCell>)
    requires
        rank < 8,
        file < 8,
    ensures
        screen@.snapshot is None ==> r is None,
        screen@.snapshot is Some ==> r == Some(
            BoardCell {
                background: spec_background(screen@, rank as int, file as int),
                content: spec_content(screen@, rank as int, file as int),
            },
        ),
{
    let snapshot = match screen.snapshot() {
        Some(s) => s,
        None => return None,
    };
    let sq = Square::from_index(rank * 8 + file);
    let mut background = square_color(rank, file);
    if screen.selected() == Some(sq) {
        background = CellColor::Rgb(130, 151, 105);
    } else if sq == screen.cursor() {
        background = CellColor::Rgb(100, 111, 64);
    }
    if let Some(last_move) = snapshot.last_move {
        if last_move.from() == Some(sq) || last_move.to() == sq {
            background = CellColor::Rgb(205, 210, 106);
        }
    }
    if snapshot.is_check {
        if let Some(king_sq) = snapshot.board.king_of(snapshot.turn) {
            if king_sq == sq {
                background = CellColor::Red;
            }
        }
    }
    let content = match snapshot.board.piece_at(sq) {
        Some(piece) => CellContent::Piece(piece),
        None => {
            let mut hint = false;
            if screen.selected().is_some() {
                let moves = screen.legal_moves_from_selected();
                let mut i: usize = 0;
                while i < moves.len()
                    invariant
                        i <= moves@.len(),
                        moves@ == screen@.legal_from_selected,
                        hint == exists|j: int| 0 <= j < i && #[trigger] moves@[j].spec_to() == sq,
                    decreases moves@.len() - i,
                {
                    if moves[i].to() == sq {
                        hint = true;
                    }
                    i = i + 1;
                }
            }
            if hint {
                CellContent::MoveHint
            } else {
                CellContent::Empty
            }
        },
    };
    Some(BoardCell { background, content })
}

/// The height of a rank on the screen, in rows: the board's rows share the
/// height left after the two border rows and the row of file labels.
pub open spec fn rank_height(area: Rect) -> int {
    if area.height >= 3 {
        (area.height - 3) / 8
    } else {
        0
    }
}

/// The width of a file on the screen, in columns: the files share the width
/// left after the two border columns and the column of rank labels.
pub open spec fn file_width(area: Rect) -> int {
    if area.width >= 3 {
        (area.width - 3) / 8
    } else {
        0
    }
}

/// Whether the board is drawn: each rank at least one row high and each
/// file at least two columns wide.
pub open spec fn board_fits(area: Rect) -> bool {
    rank_height(area) >= 1 && file_width(area) >= 2
}

/// Whether the rectangle lies within the coordinates of the terminal.
pub open spec fn on_screen(area: Rect) -> bool {
    area.x + area.width <= u16::MAX && area.y + area.height <= u16::MAX
}

/// The height of a rank and the width of a file, when the board fits.
pub fn board_metrics(area: Rect) -> (r: Option<(u16, u16)>)
    ensures
        board_fits(area) ==> r == Some((rank_height(area) as u16, file_width(area) as u16)),
        !board_fits(area) ==> r is None,
{
    let rank_height = area.height.saturating_sub(3) / 8;
    let file_width = area.width.saturating_sub(3) / 8;
    if rank_height < 1 || file_width < 2 {
        None
    } else {
        Some((rank_height, file_width))
    }
}

proof fn lemma_cells_inside(area: Rect, rank: int, file: int)
    requires
        board_fits(area),
        0 <= rank < 8,
        0 <= file < 8,
    ensures
        file * file_width(area) + file_width(area) <= area.width - 3,
        (7 - rank) * rank_height(area) + rank_height(area) <= area.height - 3,
        8 * rank_height(area) <= area.height - 3,
        (7 - rank) * rank_height(area) + rank_height(area) <= 8 * rank_height(area),
{
    let fw = file_width(area);
    let rh = rank_height(area);
    assert(file * fw + fw <= 8 * fw) by (nonlinear_arith)
        requires
            0 <= file < 8,
            fw >= 0,
    ;
    assert((7 - rank) * rh + rh <= 8 * rh) by (nonlinear_arith)
        requires
            0 <= rank < 8,
            rh >= 0,
    ;
}

/// The column where the content of a square of `file` is written: inside
/// the left border and the column of rank labels, one column left of the
/// middle of the file's cell.
pub open spec fn file_text_column(area: Rect, file: int) -> int {
    area.x + 2 + file * file_width(area) + file_width(area) / 2 - 1
}

/// The row where the squares of `rank` are drawn: inside the top border,
/// rank 8 first and rank 1 last.
pub open spec fn rank_row(area: Rect, rank: int) -> int {
    area.y + 1 + (7 - rank) * rank_height(area)
}

/// Where the content of the square at `rank` and `file` is written.
pub fn square_text_position(area: Rect, rank: u8, file: u8) -> (r: (u16, u16))
    requires
        board_fits(area),
        on_screen(area),
        rank < 8,
        file < 8,
    ensures
        r.0 == file_text_column(area, file as int),
        r.1 == rank_row(area, rank as int),
{
    proof {
        lemma_cells_inside(area, rank as int, file as int);
    }
    let rank_height = area.height.saturating_sub(3) / 8;
    let file_width = area.width.saturating_sub(3) / 8;
    let x = area.x + 2 + (file as u16) * file_width;
    let y = area.y + 1 + (7 - rank as u16) * rank_height;
    (x + (file_width / 2 - 1), y)
}

/// Where the label of the row of `rank` is written: in the column just
/// inside the left border, on the rank's row.
pub fn rank_label_position(area: Rect, rank: u8) -> (r: (u16, u16))
    requires
        board_fits(area),
        on_screen(area),
        rank < 8,
    ensures
        r.0 == area.x + 1,
        r.1 == rank_row(area, rank as int),
{
    proof {
        lemma_cells_inside(area, rank as int, 0);
    }
    let rank_height = area.height.saturating_sub(3) / 8;
    (area.x + 1, area.y + 1 + (7 - rank as u16) * rank_height)
}

/// Where the label of the column of `file` is written: below the rank-1
/// row, inside the bottom border, under the squares' contents.
pub fn file_label_position(area: Rect, file: u8) -> (r: (u16, u16))
    requires
        board_fits(area),
        on_screen(area),
        file < 8,
    ensures
        r.0 == file_text_column(area, file as int),
        r.1 == area.y + 1 + 8 * rank_height(area),
{
    proof {
        lemma_cells_inside(area, 0, file as int);
    }
    let rank_height = area.height.saturating_sub(3) / 8;
    let file_width = area.width.saturating_sub(3) / 8;
    (area.x + 2 + (file as u16) * file_width + (file_width / 2 - 1), area.y + 1 + 8 * rank_height)
}

/// The labels and squares lie inside the border of the board: columns from
/// `area.x + 1` to `area.x + area.width - 2`, rows from `area.y + 1` to
/// `area.y + area.height - 2`; the rank labels are left of every square and
/// the file labels below every rank's row.
pub proof fn lemma_board_inside_border(area: Rect, rank: int, file: int)
    requires
        board_fits(area),
        0 <= rank < 8,
        0 <= file < 8,
    ensures
        area.x + 1 < file_text_column(area, file),
        file_text_column(area, file) + 2 <= area.x + area.width - 1,
        area.y + 1 <= rank_row(area, rank),
        rank_row(area, rank) < area.y + 1 + 8 * rank_height(area),
        area.y + 1 + 8 * rank_height(area) <= area.y + area.height - 2,
{
    lemma_cells_inside(area, rank, file);
}


/// The king in check is shown red: when the state shown is in check, the
/// square of the king of the side to move is red; no other square is red (in
/// particular not the square of the other side's king), and nothing is red
/// when no king is in check.
pub proof fn lemma_only_the_king_in_check_is_red(v: ScreenView, rank: int, file: int)
    requires
        v.snapshot is Some,
        0 <= rank < 8,
        0 <= file < 8,
    ensures
        ({
            let snap = v.snapshot.unwrap();
            let sq = Square::spec_from_index((rank * 8 + file) as u8);
            &&& (snap.is_check && spec_king_of(snap.board@, snap.turn) == Some(sq)) ==> spec_background(
                v,
                rank,
                file,
            ) == CellColor::Red
            &&& spec_background(v, rank, file) == CellColor::Red ==> snap.is_check && snap.board@[rank * 8
                + file] == Some(Piece { color: snap.turn, role: Role::King })
            &&& snap.board@[rank * 8 + file] == Some(Piece { color: snap.turn.spec_other(), role: Role::King })
                ==> spec_background(v, rank, file) != CellColor::Red
        }),
{
    let snap = v.snapshot.unwrap();
    let sq = Square::spec_from_index((rank * 8 + file) as u8);
    Square::lemma_index_of_from_index((rank * 8 + file) as u8);
    lemma_king_of_holds_the_king(snap.board@, snap.turn);
}


/// A square shows the piece standing on it; an empty square shows a dot
/// exactly when a piece is picked up and one of its listed moves goes there,
/// and nothing otherwise. The picked-up piece's square is highlighted, and
/// the cursor's square when no piece is picked up there, unless the last
/// move or a check is shown on that square.
pub proof fn lemma_square_shows_piece_or_hint(v: ScreenView, rank: int, file: int)
    requires
        v.snapshot is Some,
        0 <= rank < 8,
        0 <= file < 8,
    ensures
        ({
            let snap = v.snapshot.unwrap();
            let sq = Square::spec_from_index((rank * 8 + file) as u8);
            let hinted = v.selected is Some && exists|j: int|
                0 <= j < v.legal_from_selected.len() && #[trigger] v.legal_from_selected[j].spec_to() == sq;
            let marked = (snap.last_move matches Some(m) && (m.spec_from() == Some(sq) || m.spec_to() == sq))
                || spec_background(v, rank, file) == CellColor::Red;
            &&& snap.board@[rank * 8 + file] matches Some(p) ==> spec_content(v, rank, file)
                == CellContent::Piece(p)
            &&& snap.board@[rank * 8 + file] is None ==> spec_content(v, rank, file) == (if hinted {
                CellContent::MoveHint
            } else {
                CellContent::Empty
            })
            &&& (v.selected == Some(sq) && !marked) ==> spec_background(v, rank, file) == CellColor::Rgb(
                130,
                151,
                105,
            )
            &&& (v.cursor == sq && v.selected != Some(sq) && !marked) ==> spec_background(v, rank, file)
                == CellColor::Rgb(100, 111, 64)
        }),
{
    Square::lemma_index_of_from_index((rank * 8 + file) as u8);
}

} // verus!
