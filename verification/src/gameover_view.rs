//! The popup shown when the game is over.

use vstd::prelude::*;
use crate::geometry::{bordered_inner, centered_rect, is_centered_rect, spec_bordered_inner, within, Rect};
use crate::moves::Outcome;
use crate::piece::Color;

verus! {

/// How a line of the popup is styled.
#[derive(Clone, Copy, Debug, PartialEq, Eq, Structural)]
pub enum PopupStyle {
    /// An empty line.
    Blank,
    /// "GAME OVER" and the winner: yellow, bold.
    Headline,
    /// The kind of ending and the rule: gray.
    Muted,
    /// The new-game hint: light green.
    NewGame,
    /// The quit hint: light cyan.
    Quit,
}

/// A line of the popup, centered.
pub struct PopupLine {
    pub text: String,
    pub style: PopupStyle,
}

/// The text and style of a line.
pub open spec fn popup_line_view(l: PopupLine) -> (Seq<char>, PopupStyle) {
    (l.text@, l.style)
}

/// The popup for a finished game.
#[derive(Clone, Copy, Debug, PartialEq, Eq, Structural)]
pub struct GameOverPopup {
    pub outcome: Outcome,
}

/// "white wins!" or "black wins!" for a decisive game, "Draw!" otherwise.
pub open spec fn spec_winner_text(outcome: Outcome) -> Seq<char> {
    match outcome {
        Outcome::Decisive { winner } => winner.spec_name() + " wins!"@,
        Outcome::Draw => "Draw!"@,
    }
}

/// "Checkmate" for a decisive game, "Stalemate" otherwise.
pub open spec fn spec_detail(outcome: Outcome) -> Seq<char> {
    match outcome {
        Outcome::Decisive { .. } => "Checkmate"@,
        Outcome::Draw => "Stalemate"@,
    }
}

/// The lines of the popup, top to bottom.
pub open spec fn spec_popup_lines(outcome: Outcome) -> Seq<(Seq<char>, PopupStyle)> {
    let blank = (""@, PopupStyle::Blank);
    seq![
        blank,
        blank,
        ("GAME OVER"@, PopupStyle::Headline),
        blank,
        blank,
        (spec_winner_text(outcome), PopupStyle::Headline),
        (spec_detail(outcome), PopupStyle::Muted),
        blank,
        blank,
        ("━━━━━━━━━━━━━━━━━━━━━━━━━━━━━━━━━━━━━━━━"@, PopupStyle::Muted),
        blank,
        ("[N] New Game"@, PopupStyle::NewGame),
        ("[Q] Quit"@, PopupStyle::Quit),
        blank,
    ]
}

fn push_line(lines: &mut Vec<PopupLine>, text: &str, style: PopupStyle)
    ensures
        final(lines)@.len() == old(lines)@.len() + 1,
        forall|i: int| 0 <= i < old(lines)@.len() ==> #[trigger] final(lines)@[i] == old(lines)@[i],
        popup_line_view(final(lines)@[old(lines)@.len() as int]) == (text@, style),
{
    lines.push(PopupLine { text: String::from_str(text), style });
}

impl GameOverPopup {
    /// The popup for the given outcome.
    pub fn new(outcome: Outcome) -> (p: GameOverPopup)
        ensures
            p.outcome == outcome,
    {
        GameOverPopup { outcome }
    }

    /// "white wins!" or "black wins!" for a decisive game, "Draw!" otherwise.
    pub fn winner_text(&self) -> (r: String)
        ensures
            r@ == spec_winner_text(self.outcome),
    {
        match self.outcome {
            Outcome::Decisive { winner } => {
                let mut t = String::from_str(winner.name());
                t.append(" wins!");
                t
            },
            Outcome::Draw => String::from_str("Draw!"),
        }
    }

    /// "Checkmate" for a decisive game, "Stalemate" otherwise.
    pub fn outcome_detail(&self) -> (r: &'static str)
        ensures
            r@ == spec_detail(self.outcome),
    {
        match self.outcome {
            Outcome::Decisive { .. } => "Checkmate",
            Outcome::Draw => "Stalemate",
        }
    }

    /// The lines of the popup, top to bottom.
    pub fn lines(&self) -> (r: Vec<PopupLine>)
        ensures
            r@.map_values(|l: PopupLine| popup_line_view(l)) == spec_popup_lines(self.outcome),
    {
        let mut lines: Vec<PopupLine> = Vec::new();
        push_line(&mut lines, "", PopupStyle::Blank);
        push_line(&mut lines, "", PopupStyle::Blank);
        push_line(&mut lines, "GAME OVER", PopupStyle::Headline);
        push_line(&mut lines, "", PopupStyle::Blank);
        push_line(&mut lines, "", PopupStyle::Blank);
        lines.push(PopupLine { text: self.winner_text(), style: PopupStyle::Headline });
        push_line(&mut lines, self.outcome_detail(), PopupStyle::Muted);
        push_line(&mut lines, "", PopupStyle::Blank);
        push_line(&mut lines, "", PopupStyle::Blank);
        push_line(&mut lines, "━━━━━━━━━━━━━━━━━━━━━━━━━━━━━━━━━━━━━━━━", PopupStyle::Muted);
        push_line(&mut lines, "", PopupStyle::Blank);
        push_line(&mut lines, "[N] New Game", PopupStyle::NewGame);
        push_line(&mut lines, "[Q] Quit", PopupStyle::Quit);
        push_line(&mut lines, "", PopupStyle::Blank);
        assert(lines@.map_values(|l: PopupLine| popup_line_view(l)) =~= spec_popup_lines(self.outcome));
        lines
    }

    /// The popup's rectangle, about 60% by 50% in the middle of `area` (as
    /// `centered_rect` gives it), and the area inside its border.
    pub fn areas(area: Rect) -> (r: (Rect, Rect))
        ensures
            is_centered_rect(60, 50, area, r.0),
            within(r.0, area),
            r.1 == spec_bordered_inner(r.0),
    {
        let popup = centered_rect(60, 50, area);
        (popup, bordered_inner(popup))
    }

    /// Whether the lines are drawn in an inner area of the given height:
    /// only when it is taller than the fourteen lines.
    pub fn fits(inner_height: u16) -> (r: bool)
        ensures
            r == (inner_height > spec_popup_lines(Outcome::Draw).len()),
    {
        inner_height > 14
    }
}


/// A decisive game names its winner: the winner text is the winner's name
/// ("white" or "black") followed by " wins!", so the two sides' texts differ.
pub proof fn lemma_winner_text_names_the_winner(w: Color)
    ensures
        spec_winner_text(Outcome::Decisive { winner: w }) == w.spec_name() + " wins!"@,
        w == Color::White ==> spec_winner_text(Outcome::Decisive { winner: w }) == "white"@ + " wins!"@,
        w == Color::Black ==> spec_winner_text(Outcome::Decisive { winner: w }) == "black"@ + " wins!"@,
        spec_winner_text(Outcome::Decisive { winner: w }) != spec_winner_text(
            Outcome::Decisive { winner: w.spec_other() },
        ),
{
    reveal_strlit("white");
    reveal_strlit("black");
    let a = spec_winner_text(Outcome::Decisive { winner: w });
    let b = spec_winner_text(Outcome::Decisive { winner: w.spec_other() });
    assert(a[0] != b[0]);
}


/// A decisive game is shown as a checkmate and a drawn one as a stalemate,
/// and a draw is announced as "Draw!".
pub proof fn lemma_detail_tells_how_the_game_ended(w: Color)
    ensures
        spec_detail(Outcome::Decisive { winner: w }) == "Checkmate"@,
        spec_detail(Outcome::Draw) == "Stalemate"@,
        spec_winner_text(Outcome::Draw) == "Draw!"@,
        "Checkmate"@ != "Stalemate"@,
{
    reveal_strlit("Checkmate");
    reveal_strlit("Stalemate");
    assert("Checkmate"@[0] != "Stalemate"@[0]);
}

} // verus!
