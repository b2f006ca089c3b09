//! What the information panel shows: whose turn it is, check and game over,
//! the illegal-move flash, the captured pieces, and the controls.

use vstd::prelude::*;
use crate::moves::Outcome;
use crate::piece::{Color, Role};
use crate::board_view::on_screen;
use crate::geometry::{bordered_inner, spec_bordered_inner, Rect};
use crate::screen::{GameScreen, ScreenView};

verus! {

/// How a line of the panel is styled.
#[derive(Clone, Copy, Debug, PartialEq, Eq, Structural)]
pub enum InfoStyle {
    /// Whose turn it is.
    Turn,
    /// Check, game over, illegal move.
    Alert,
    /// The pieces White captured (black pieces).
    CapturedByWhite,
    /// The pieces Black captured (white pieces).
    CapturedByBlack,
    /// Everything else.
    Plain,
}

/// A line of the panel: an unstyled label, then a styled text.
pub struct InfoLine {
    pub label: String,
    pub text: String,
    pub style: InfoStyle,
}

/// The label, text and style of a line.
pub open spec fn line_view(l: InfoLine) -> (Seq<char>, Seq<char>, InfoStyle) {
    (l.label@, l.text@, l.style)
}

/// The chess symbol of a captured piece of the given side; nothing for a king.
pub open spec fn role_symbol(role: Role, color: Color) -> Seq<char> {
    match (color, role) {
        (Color::White, Role::Queen) => seq!['♕'],
        (Color::White, Role::Rook) => seq!['♖'],
        (Color::White, Role::Bishop) => seq!['♗'],
        (Color::White, Role::Knight) => seq!['♘'],
        (Color::White, Role::Pawn) => seq!['♙'],
        (Color::Black, Role::Queen) => seq!['♛'],
        (Color::Black, Role::Rook) => seq!['♜'],
        (Color::Black, Role::Bishop) => seq!['♝'],
        (Color::Black, Role::Knight) => seq!['♞'],
        (Color::Black, Role::Pawn) => seq!['♟'],
        _ => Seq::empty(),
    }
}

/// The chess symbol of a captured piece of the given side; "" for a king.
pub fn role_char(role: Role, color: Color) -> (r: &'static str)
    ensures
        r@ == role_symbol(role, color),
{
    proof {
        reveal_strlit("♕");
        reveal_strlit("♖");
        reveal_strlit("♗");
        reveal_strlit("♘");
        reveal_strlit("♙");
        reveal_strlit("♛");
        reveal_strlit("♜");
        reveal_strlit("♝");
        reveal_strlit("♞");
        reveal_strlit("♟");
        reveal_strlit("");
    }
    match (color, role) {
        (Color::White, Role::Queen) => "♕",
        (Color::White, Role::Rook) => "♖",
        (Color::White, Role::Bishop) => "♗",
        (Color::White, Role::Knight) => "♘",
        (Color::White, Role::Pawn) => "♙",
        (Color::Black, Role::Queen) => "♛",
        (Color::Black, Role::Rook) => "♜",
        (Color::Black, Role::Bishop) => "♝",
        (Color::Black, Role::Knight) => "♞",
        (Color::Black, Role::Pawn) => "♟",
        _ => "",
    }
}

/// The symbols of the captured pieces, in the order of capture.
pub open spec fn role_symbols(roles: Seq<Role>, color: Color) -> Seq<char>
    decreases roles.len(),
{
    if roles.len() == 0 {
        Seq::empty()
    } else {
        role_symbols(roles.drop_last(), color) + role_symbol(roles.last(), color)
    }
}

/// The symbols of the captured pieces, in the order of capture.
pub fn captured_symbols(roles: &Vec<Role>, color: Color) -> (r: String)
    ensures
        r@ == role_symbols(roles@, color),
{
    let mut r = String::new();
    for i in 0..roles.len()
        invariant
            r@ == role_symbols(roles@.take(i as int), color),
    {
        assert(roles@.take(i + 1).drop_last() =~= roles@.take(i as int));
        r.append(role_char(roles[i], color));
    }
    assert(roles@.take(roles.len() as int) =~= roles@);
    r
}

/// A line with no label.
pub open spec fn text_line(text: Seq<char>, style: InfoStyle) -> (Seq<char>, Seq<char>, InfoStyle) {
    (Seq::empty(), text, style)
}

/// The lines of the panel, once a state of the game has arrived.
pub open spec fn spec_info_lines(v: ScreenView) -> Seq<(Seq<char>, Seq<char>, InfoStyle)> {
    let snap = v.snapshot.unwrap();
    let turn_text = match snap.turn {
        Color::White => "White's turn"@,
        Color::Black => "Black's turn"@,
    };
    let l1 = seq![text_line(turn_text, InfoStyle::Turn)];
    let l2 = match v.game_over {
        Some(o) => l1.push(text_line("Game Over: "@ + o.spec_as_str(), InfoStyle::Alert)),
        None => if snap.is_check {
            l1.push(text_line("Check!"@, InfoStyle::Alert))
        } else {
            l1
        },
    };
    let l3 = if v.illegal_flash > 0 {
        l2.push(text_line("Illegal move!"@, InfoStyle::Alert))
    } else {
        l2
    };
    let l4 = l3.push(text_line(""@, InfoStyle::Plain));
    let l5 = if snap.captured_white@.len() > 0 {
        l4.push(
            (
                "Captured by White: "@,
                role_symbols(snap.captured_white@, Color::Black),
                InfoStyle::CapturedByWhite,
            ),
        )
    } else {
        l4
    };
    let l6 = if snap.captured_black@.len() > 0 {
        l5.push(
            (
                "Captured by Black: "@,
                role_symbols(snap.captured_black@, Color::White),
                InfoStyle::CapturedByBlack,
            ),
        )
    } else {
        l5
    };
    l6.push(text_line(Seq::empty(), InfoStyle::Plain)).push(
        text_line("Controls: [n] New  [u] Undo  [q] Quit"@, InfoStyle::Plain),
    )
}

fn push_text(lines: &mut Vec<InfoLine>, text: &str, style: InfoStyle)
    ensures
        final(lines)@.len() == old(lines)@.len() + 1,
        forall|i: int| 0 <= i < old(lines)@.len() ==> #[trigger] final(lines)@[i] == old(lines)@[i],
        line_view(final(lines)@[old(lines)@.len() as int]) == text_line(text@, style),
{
    lines.push(InfoLine { label: String::new(), text: String::from_str(text), style });
}

/// The lines of the panel; `None` before the first state of the game arrives.
pub fn info_lines(screen: &GameScreen) -> (r: Option<Vec<InfoLine>>)
    ensures
        screen@.snapshot is None ==> r is None,
        screen@.snapshot is Some ==> (r matches Some(lines) && lines@.map_values(
            |l: InfoLine| line_view(l),
        ) == spec_info_lines(screen@)),
{
    let snapshot = match screen.snapshot() {
        Some(s) => s,
        None => return None,
    };
    let mut lines: Vec<InfoLine> = Vec::new();
    let turn_text = match snapshot.turn {
        Color::White => "White's turn",
        Color::Black => "Black's turn",
    };
    push_text(&mut lines, turn_text, InfoStyle::Turn);
    match screen.game_over() {
        Some(outcome) => {
            let mut text = String::from_str("Game Over: ");
            text.append(outcome.as_str());
            lines.push(InfoLine { label: String::new(), text, style: InfoStyle::Alert });
        },
        None => {
            if snapshot.is_check {
                push_text(&mut lines, "Check!", InfoStyle::Alert);
            }
        },
    }
    if screen.illegal_flash() > 0 {
        push_text(&mut lines, "Illegal move!", InfoStyle::Alert);
    }
    push_text(&mut lines, "", InfoStyle::Plain);
    if snapshot.captured_white.len() > 0 {
        let captured = captured_symbols(&snapshot.captured_white, Color::Black);
        lines.push(
            InfoLine {
                label: String::from_str("Captured by White: "),
                text: captured,
                style: InfoStyle::CapturedByWhite,
            },
        );
    }
    if snapshot.captured_black.len() > 0 {
        let captured = captured_symbols(&snapshot.captured_black, Color::White);
        lines.push(
            InfoLine {
                label: String::from_str("Captured by Black: "),
                text: captured,
                style: InfoStyle::CapturedByBlack,
            },
        );
    }
    lines.push(InfoLine { label: String::new(), text: String::new(), style: InfoStyle::Plain });
    push_text(&mut lines, "Controls: [n] New  [u] Undo  [q] Quit", InfoStyle::Plain);
    assert(lines@.map_values(|l: InfoLine| line_view(l)) =~= spec_info_lines(screen@));
    Some(lines)
}

/// The row of line `i` of the panel, inside the panel's border: `None` when
/// the line falls below the last row inside the border.
pub fn info_line_area(area: Rect, i: usize) -> (r: Option<Rect>)
    requires
        on_screen(area),
    ensures
        r == (if i < spec_bordered_inner(area).height {
            Some(
                Rect {
                    x: spec_bordered_inner(area).x,
                    y: (spec_bordered_inner(area).y + i) as u16,
                    width: spec_bordered_inner(area).width,
                    height: 1,
                },
            )
        } else {
            None
        }),
{
    let inner = bordered_inner(area);
    if i < inner.height as usize {
        Some(Rect { x: inner.x, y: inner.y + i as u16, width: inner.width, height: 1 })
    } else {
        None
    }
}


/// The panel's first line names the side to move: "White's turn" when White
/// is to move and "Black's turn" when Black is, two different texts.
pub proof fn lemma_first_line_names_the_side_to_move(v: ScreenView)
    requires
        v.snapshot is Some,
    ensures
        spec_info_lines(v).len() >= 1,
        spec_info_lines(v)[0].0 == Seq::<char>::empty(),
        spec_info_lines(v)[0].2 == InfoStyle::Turn,
        v.snapshot.unwrap().turn == Color::White ==> spec_info_lines(v)[0].1 == "White's turn"@,
        v.snapshot.unwrap().turn == Color::Black ==> spec_info_lines(v)[0].1 == "Black's turn"@,
        "White's turn"@ != "Black's turn"@,
{
    reveal_strlit("White's turn");
    reveal_strlit("Black's turn");
    assert("White's turn"@[0] != "Black's turn"@[0]);
}


/// The panel's second line tells how the game ended once it has, and
/// otherwise tells of a check: "Game Over: " and the result, or "Check!".
pub proof fn lemma_second_line_tells_the_end_or_check(v: ScreenView)
    requires
        v.snapshot is Some,
    ensures
        spec_info_lines(v).len() >= 2,
        v.game_over matches Some(o) ==> spec_info_lines(v)[1] == (
            Seq::<char>::empty(),
            "Game Over: "@ + o.spec_as_str(),
            InfoStyle::Alert,
        ),
        v.game_over is None && v.snapshot.unwrap().is_check ==> spec_info_lines(v)[1] == (
            Seq::<char>::empty(),
            "Check!"@,
            InfoStyle::Alert,
        ),
{
}

/// The panel lists the pieces each side captured, under that side's name:
/// the black pieces White took after "Captured by White: ", the white pieces
/// Black took after "Captured by Black: ", each line present exactly when the
/// side has captured something.
pub proof fn lemma_panel_lists_captures_by_side(v: ScreenView)
    requires
        v.snapshot is Some,
    ensures
        ({
            let snap = v.snapshot.unwrap();
            let by_white = (
                "Captured by White: "@,
                role_symbols(snap.captured_white@, Color::Black),
                InfoStyle::CapturedByWhite,
            );
            let by_black = (
                "Captured by Black: "@,
                role_symbols(snap.captured_black@, Color::White),
                InfoStyle::CapturedByBlack,
            );
            &&& snap.captured_white@.len() > 0 <==> spec_info_lines(v).contains(by_white)
            &&& snap.captured_black@.len() > 0 <==> spec_info_lines(v).contains(by_black)
        }),
{
    let snap = v.snapshot.unwrap();
    let lines = spec_info_lines(v);
    let turn_text = match snap.turn {
        Color::White => "White's turn"@,
        Color::Black => "Black's turn"@,
    };
    let l1 = seq![text_line(turn_text, InfoStyle::Turn)];
    let l2 = match v.game_over {
        Some(o) => l1.push(text_line("Game Over: "@ + o.spec_as_str(), InfoStyle::Alert)),
        None => if snap.is_check {
            l1.push(text_line("Check!"@, InfoStyle::Alert))
        } else {
            l1
        },
    };
    let l3 = if v.illegal_flash > 0 {
        l2.push(text_line("Illegal move!"@, InfoStyle::Alert))
    } else {
        l2
    };
    let l4 = l3.push(text_line(""@, InfoStyle::Plain));
    let by_white = (
        "Captured by White: "@,
        role_symbols(snap.captured_white@, Color::Black),
        InfoStyle::CapturedByWhite,
    );
    let by_black = (
        "Captured by Black: "@,
        role_symbols(snap.captured_black@, Color::White),
        InfoStyle::CapturedByBlack,
    );
    let l5 = if snap.captured_white@.len() > 0 { l4.push(by_white) } else { l4 };
    let l6 = if snap.captured_black@.len() > 0 { l5.push(by_black) } else { l5 };
    assert(forall|k: int| 0 <= k < l4.len() ==> (#[trigger] l4[k]).2 != InfoStyle::CapturedByWhite
        && l4[k].2 != InfoStyle::CapturedByBlack);
    assert(lines == l6.push(text_line(Seq::empty(), InfoStyle::Plain)).push(
        text_line("Controls: [n] New  [u] Undo  [q] Quit"@, InfoStyle::Plain),
    ));
    if snap.captured_white@.len() > 0 {
        assert(lines[l4.len() as int] == by_white);
    } else {
        assert forall|k: int| 0 <= k < lines.len() implies (#[trigger] lines[k]).2 != InfoStyle::CapturedByWhite by {
            if k < l4.len() {
                assert(lines[k] == l4[k]);
            }
        }
    }
    if snap.captured_black@.len() > 0 {
        assert(lines[l5.len() as int] == by_black);
    } else {
        assert forall|k: int| 0 <= k < lines.len() implies (#[trigger] lines[k]).2 != InfoStyle::CapturedByBlack by {
            if k < l4.len() {
                assert(lines[k] == l4[k]);
            }
        }
    }
}

} // verus!
