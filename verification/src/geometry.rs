//! Rectangles of the terminal and their layout, as computed by `ratatui`.

use vstd::prelude::*;

verus! {

/// A rectangle of terminal cells: its top-left corner and its size.
#[derive(Clone, Copy, Debug, PartialEq, Eq, Structural)]
pub struct Rect {
    pub x: u16,
    pub y: u16,
    pub width: u16,
    pub height: u16,
}

/// A constraint on the size of one part of a layout.
#[derive(Clone, Copy, Debug, PartialEq, Eq, Structural)]
pub enum LayoutConstraint {
    /// At least this many cells.
    Min(u16),
    /// This percentage of the area.
    Percentage(u16),
}

/// Twice the margin, as ratatui's `Rect::inner` takes it: saturating at the
/// largest `u16`.
pub open spec fn doubled_margin(margin: u16) -> int {
    if 2 * margin > u16::MAX { u16::MAX as int } else { 2 * margin }
}

/// The area left inside a margin of `margin` cells on each side, as
/// ratatui's `Rect::inner` gives it (saturating arithmetic): nothing, at the
/// origin, when the area is narrower or lower than twice the margin.
pub open spec fn margin_inner(area: Rect, margin: u16) -> Rect {
    let d = doubled_margin(margin);
    if area.width < d || area.height < d {
        Rect { x: 0, y: 0, width: 0, height: 0 }
    } else {
        Rect {
            x: if area.x + margin > u16::MAX { u16::MAX } else { (area.x + margin) as u16 },
            y: if area.y + margin > u16::MAX { u16::MAX } else { (area.y + margin) as u16 },
            width: (area.width - d) as u16,
            height: (area.height - d) as u16,
        }
    }
}

/// Whether ratatui's `Layout` (with this direction, margin and constraints)
/// can split `area` into `parts`. Which of the possible splits comes out is
/// left to ratatui's solver, which may settle ties differently from one
/// process to the next.
pub uninterp spec fn ratatui_may_split(
    vertical: bool,
    margin: u16,
    constraints: Seq<LayoutConstraint>,
    area: Rect,
    parts: Seq<Rect>,
) -> bool;

/// Whether `part` is a slice of `inner` across the direction of the split:
/// it spans `inner` in the other direction and lies within it along the split.
pub open spec fn is_slice_of(part: Rect, inner: Rect, vertical: bool) -> bool {
    if vertical {
        &&& part.x == inner.x
        &&& part.width == inner.width
        &&& inner.y <= part.y
        &&& part.y + part.height <= inner.y + inner.height
    } else {
        &&& part.y == inner.y
        &&& part.height == inner.height
        &&& inner.x <= part.x
        &&& part.x + part.width <= inner.x + inner.width
    }
}

/// Calls `Layout::split` of ratatui with the given direction, margin and
/// constraints (ratatui's `Min` and `Percentage`, one for one). ratatui's
/// `try_split` makes one segment per constraint, and requires of its solver
/// that every segment boundary lie between the start and the end of the
/// area inside the margin; the segments span that area across the split.
/// Where the segments fall along the split is left unsaid beyond that: the
/// result is one of the splits ratatui can give for these arguments, and
/// ratatui's solver (cassowary) can settle ties differently from one process
/// to the next.
#[verifier::external_body]
pub(crate) fn split(vertical: bool, margin: u16, constraints: &Vec<LayoutConstraint>, area: Rect) -> (r: Vec<Rect>)
    ensures
        ratatui_may_split(vertical, margin, constraints@, area, r@),
        r@.len() == constraints@.len(),
        forall|i: int| 0 <= i < r@.len() ==> is_slice_of(#[trigger] r@[i], margin_inner(area, margin), vertical),
{
    let cs = constraints.iter().map(|c| match *c {
        LayoutConstraint::Min(n) => ratatui::layout::Constraint::Min(n),
        LayoutConstraint::Percentage(p) => ratatui::layout::Constraint::Percentage(p),
    });
    let dir = if vertical { ratatui::layout::Direction::Vertical } else { ratatui::layout::Direction::Horizontal };
    let area = ratatui::layout::Rect { x: area.x, y: area.y, width: area.width, height: area.height };
    let parts = ratatui::layout::Layout::default().direction(dir).margin(margin).constraints(cs).split(area);
    parts.iter().map(|p| Rect { x: p.x, y: p.y, width: p.width, height: p.height }).collect()
}

/// Whether `inner` lies within `outer`.
pub open spec fn within(inner: Rect, outer: Rect) -> bool {
    &&& outer.x <= inner.x
    &&& inner.x + inner.width <= outer.x + outer.width
    &&& outer.y <= inner.y
    &&& inner.y + inner.height <= outer.y + outer.height
}

/// The area inside the border of a block bordered on all four sides.
pub open spec fn spec_bordered_inner(area: Rect) -> Rect {
    let right = if area.x + area.width > u16::MAX { u16::MAX as int } else { area.x + area.width };
    let bottom = if area.y + area.height > u16::MAX { u16::MAX as int } else { area.y + area.height };
    let x = if area.x + 1 > right { right } else { area.x + 1 };
    let y = if area.y + 1 > bottom { bottom } else { area.y + 1 };
    Rect {
        x: x as u16,
        y: y as u16,
        width: if area.width >= 2 { (area.width - 2) as u16 } else { 0 },
        height: if area.height >= 2 { (area.height - 2) as u16 } else { 0 },
    }
}

/// Calls `Block::inner` of ratatui for `Block::bordered()` (all four borders,
/// no padding): the left and top edges move in by one cell (not past the
/// right and bottom edges), and width and height shrink by two, down to 0.
#[verifier::external_body]
pub(crate) fn bordered_inner(area: Rect) -> (r: Rect)
    ensures
        r == spec_bordered_inner(area),
{
    let area = ratatui::layout::Rect { x: area.x, y: area.y, width: area.width, height: area.height };
    let inner = ratatui::widgets::Block::bordered().inner(area);
    Rect { x: inner.x, y: inner.y, width: inner.width, height: inner.height }
}

/// The constraints of the board and the information panel, side by side:
/// at least 60 and at least 20 cells wide.
pub open spec fn game_constraints() -> Seq<LayoutConstraint> {
    seq![LayoutConstraint::Min(60), LayoutConstraint::Min(20)]
}

/// The areas of the board and of the information panel: the screen split
/// side by side by `game_constraints`, inside a margin of one cell. Both span
/// the height inside the margin.
pub fn game_layout(size: Rect) -> (r: (Rect, Rect))
    ensures
        ratatui_may_split(false, 1, game_constraints(), size, seq![r.0, r.1]),
        is_slice_of(r.0, margin_inner(size, 1), false),
        is_slice_of(r.1, margin_inner(size, 1), false),
{
    let constraints = vec![LayoutConstraint::Min(60), LayoutConstraint::Min(20)];
    assert(constraints@ =~= game_constraints());
    let parts = split(false, 1, &constraints, size);
    assert(seq![parts@[0], parts@[1]] =~= parts@);
    (parts[0], parts[1])
}

/// The constraints that put a part of `percent` percent between two equal
/// parts: `(100 - percent) / 2`, `percent`, `(100 - percent) / 2`.
pub open spec fn centered(percent: u16) -> Seq<LayoutConstraint> {
    seq![
        LayoutConstraint::Percentage(((100 - percent) / 2) as u16),
        LayoutConstraint::Percentage(percent),
        LayoutConstraint::Percentage(((100 - percent) / 2) as u16),
    ]
}

/// The constraints that put a part of `percent` percent in the middle.
pub fn centered_constraints(percent: u16) -> (r: Vec<LayoutConstraint>)
    requires
        percent <= 100,
    ensures
        r@ == centered(percent),
{
    let side = (100 - percent) / 2;
    let r = vec![
        LayoutConstraint::Percentage(side),
        LayoutConstraint::Percentage(percent),
        LayoutConstraint::Percentage(side),
    ];
    assert(r@ =~= centered(percent));
    r
}

/// Whether `c` is the rectangle in the middle of `r` that ratatui can give
/// for `percent_x` by `percent_y` percent: the middle part of a split of `r`
/// into rows by `centered(percent_y)`, then the middle part of a split of
/// that row into columns by `centered(percent_x)`.
pub open spec fn is_centered_rect(percent_x: u16, percent_y: u16, r: Rect, c: Rect) -> bool {
    exists|rows: Seq<Rect>, columns: Seq<Rect>|
        #![trigger ratatui_may_split(true, 0, centered(percent_y), r, rows), ratatui_may_split(false, 0, centered(percent_x), rows[1], columns)]
        rows.len() == 3 && columns.len() == 3 && ratatui_may_split(true, 0, centered(percent_y), r, rows)
            && ratatui_may_split(false, 0, centered(percent_x), rows[1], columns) && c == columns[1]
}

/// A rectangle of about `percent_x` by `percent_y` percent in the middle of
/// `r` (see `is_centered_rect`). It lies within `r`.
pub fn centered_rect(percent_x: u16, percent_y: u16, r: Rect) -> (c: Rect)
    requires
        percent_x <= 100,
        percent_y <= 100,
    ensures
        is_centered_rect(percent_x, percent_y, r, c),
        within(c, r),
{
    let rows = centered_constraints(percent_y);
    let popup_layout = split(true, 0, &rows, r);
    let columns = centered_constraints(percent_x);
    let parts = split(false, 0, &columns, popup_layout[1]);
    assert(ratatui_may_split(true, 0, centered(percent_y), r, popup_layout@));
    assert(ratatui_may_split(false, 0, centered(percent_x), popup_layout@[1], parts@));
    parts[1]
}

} // verus!
