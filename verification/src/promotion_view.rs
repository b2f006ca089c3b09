//! The dialog that asks which piece a pawn promotes to.

use vstd::prelude::*;
use crate::board_view::on_screen;
use crate::geometry::{bordered_inner, spec_bordered_inner, Rect};
use crate::piece::{Color, Role};
use crate::screen::{promotion_role, GameScreen, ScreenView};

verus! {

/// The chess symbol of a promotion piece of the given side; nothing for
/// other kinds.
pub open spec fn promotion_symbol(role: Role, color: Color) -> Seq<char> {
    match (color, role) {
        (Color::White, Role::Queen) => seq!['♕'],
        (Color::White, Role::Rook) => seq!['♖'],
        (Color::White, Role::Bishop) => seq!['♗'],
        (Color::White, Role::Knight) => seq!['♘'],
        (Color::Black, Role::Queen) => seq!['♛'],
        (Color::Black, Role::Rook) => seq!['♜'],
        (Color::Black, Role::Bishop) => seq!['♝'],
        (Color::Black, Role::Knight) => seq!['♞'],
        _ => Seq::empty(),
    }
}

/// The chess symbol of a promotion piece of the given side; "" otherwise.
pub fn role_char(role: Role, color: Color) -> (r: &'static str)
    ensures
        r@ == promotion_symbol(role, color),
{
    proof {
        reveal_strlit("♕");
        reveal_strlit("♖");
        reveal_strlit("♗");
        reveal_strlit("♘");
        reveal_strlit("♛");
        reveal_strlit("♜");
        reveal_strlit("♝");
        reveal_strlit("♞");
        reveal_strlit("");
    }
    match (color, role) {
        (Color::White, Role::Queen) => "♕",
        (Color::White, Role::Rook) => "♖",
        (Color::White, Role::Bishop) => "♗",
        (Color::White, Role::Knight) => "♘",
        (Color::Black, Role::Queen) => "♛",
        (Color::Black, Role::Rook) => "♜",
        (Color::Black, Role::Bishop) => "♝",
        (Color::Black, Role::Knight) => "♞",
        _ => "",
    }
}

/// The letter that names the promotion piece at place `i` of the dialog.
pub open spec fn promotion_letter(i: int) -> Seq<char> {
    if i == 0 {
        "Q"@
    } else if i == 1 {
        "R"@
    } else if i == 2 {
        "B"@
    } else {
        "N"@
    }
}

/// The dialog's rectangle: at most 40 columns by 7 rows, in the middle of `area`.
pub open spec fn spec_promotion_popup(area: Rect) -> Rect {
    let w = if area.width < 40 { area.width } else { 40 };
    let h = if area.height < 7 { area.height } else { 7 };
    Rect {
        x: (area.x + (area.width - w) / 2) as u16,
        y: (area.y + (area.height - h) / 2) as u16,
        width: w,
        height: h,
    }
}

/// The dialog's rectangle: at most 40 columns by 7 rows, in the middle of `area`.
pub fn promotion_popup(area: Rect) -> (r: Rect)
    requires
        on_screen(area),
    ensures
        r == spec_promotion_popup(area),
{
    let popup_width = if area.width < 40 { area.width } else { 40 };
    let popup_height = if area.height < 7 { area.height } else { 7 };
    let popup_x = area.x + (area.width - popup_width) / 2;
    let popup_y = area.y + (area.height - popup_height) / 2;
    Rect { x: popup_x, y: popup_y, width: popup_width, height: popup_height }
}

/// The dialog's rectangle in `area`, and the area inside its border.
pub fn promotion_areas(area: Rect) -> (r: (Rect, Rect))
    requires
        on_screen(area),
    ensures
        r.0 == spec_promotion_popup(area),
        r.1 == spec_bordered_inner(spec_promotion_popup(area)),
        on_screen(r.1),
{
    let popup = promotion_popup(area);
    (popup, bordered_inner(popup))
}

/// One piece of the dialog: its column, symbol and letter, and whether the
/// dialog's cursor is on it.
pub struct PromotionEntry {
    pub x: u16,
    pub symbol: &'static str,
    pub label: &'static str,
    pub selected: bool,
}

/// The dialog inside its border: the rows of the symbols, letters and caret,
/// the pieces, and where the help text "Arrow keys + Enter" starts.
pub struct PromotionLayout {
    pub piece_row: u16,
    pub label_row: u16,
    pub caret_row: u16,
    pub entries: Vec<PromotionEntry>,
    pub help_x: u16,
}

/// The column of the piece at place `i`: the start of its quarter of the
/// width, plus half a quarter less one.
pub open spec fn entry_x(inner: Rect, i: int) -> int {
    let w = inner.width / 4;
    inner.x + i * w + if w / 2 >= 1 { w / 2 - 1 } else { 0 }
}

/// Whether the layout is that of the dialog with inner area `inner` on the
/// screen `v`: queen, rook, bishop, knight of the side to move, the one under
/// the dialog's cursor marked.
pub open spec fn is_promotion_layout(l: PromotionLayout, v: ScreenView, inner: Rect) -> bool {
    let snap = v.snapshot.unwrap();
    let center = inner.x + inner.width / 2;
    &&& l.piece_row == inner.y + 1
    &&& l.label_row == inner.y + 2
    &&& l.caret_row == inner.y + 3
    &&& l.help_x == if center >= 9 { center - 9 } else { 0 }
    &&& l.entries@.len() == 4
    &&& forall|i: int|
        0 <= i < 4 ==> {
            let e = #[trigger] l.entries@[i];
            &&& e.x == entry_x(inner, i)
            &&& e.symbol@ == promotion_symbol(promotion_role(i), snap.turn)
            &&& e.label@ == promotion_letter(i)
            &&& e.selected == (i == v.promotion_cursor)
        }
}

/// The dialog inside its border `inner`; `None` before the first state of
/// the game arrives or when fewer than four rows fit.
pub fn promotion_layout(screen: &GameScreen, inner: Rect) -> (r: Option<PromotionLayout>)
    requires
        on_screen(inner),
    ensures
        (screen@.snapshot is None || inner.height < 4) ==> r is None,
        (screen@.snapshot is Some && inner.height >= 4) ==> (r matches Some(l)
            && is_promotion_layout(l, screen@, inner)),
{
    let snapshot = match screen.snapshot() {
        Some(s) => s,
        None => return None,
    };
    if inner.height < 4 {
        return None;
    }
    let roles = [Role::Queen, Role::Rook, Role::Bishop, Role::Knight];
    let labels = ["Q", "R", "B", "N"];
    let width_per_role = inner.width / 4;
    let cursor_idx = screen.promotion_cursor();
    let mut entries: Vec<PromotionEntry> = Vec::new();
    for i in 0..4usize
        invariant
            entries@.len() == i,
            width_per_role == inner.width / 4,
            on_screen(inner),
            cursor_idx == screen@.promotion_cursor,
            roles@ == seq![Role::Queen, Role::Rook, Role::Bishop, Role::Knight],
            labels@ == seq!["Q", "R", "B", "N"],
            snapshot == screen@.snapshot.unwrap(),
            forall|j: int|
                0 <= j < i ==> {
                    let e = #[trigger] entries@[j];
                    &&& e.x == entry_x(inner, j)
                    &&& e.symbol@ == promotion_symbol(promotion_role(j), snapshot.turn)
                    &&& e.label@ == promotion_letter(j)
                    &&& e.selected == (j == cursor_idx)
                },
    {
        assert(i * width_per_role <= 3 * width_per_role) by (nonlinear_arith)
            requires
                i < 4,
        ;
        let x = inner.x + (i as u16) * width_per_role + (width_per_role / 2).saturating_sub(1);
        let role = roles[i];
        entries.push(
            PromotionEntry {
                x,
                symbol: role_char(role, snapshot.turn),
                label: labels[i],
                selected: i == cursor_idx,
            },
        );
    }
    let center_x = inner.x + inner.width / 2;
    Some(
        PromotionLayout {
            piece_row: inner.y + 1,
            label_row: inner.y + 2,
            caret_row: inner.y + 3,
            entries,
            help_x: center_x.saturating_sub(9),
        },
    )
}

} // verus!
