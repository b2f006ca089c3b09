use vstd::prelude::*;
use crate::piece::Color;

verus! {

/// A participant in the game. Each kind of player is a variant, so that
/// adding one (over a network, or an engine) is checked at every match.
#[derive(Clone, Copy, Debug, PartialEq, Eq, Structural)]
pub enum Player {
    /// A local player who shares the keyboard with the other side.
    Hotseat(HotseatPlayer),
}

impl Player {
    /// The side this player plays.
    pub open spec fn spec_color(self) -> Color {
        match self {
            Player::Hotseat(p) => p.color,
        }
    }

    /// The side this player plays.
    pub fn color(&self) -> (r: Color)
        ensures
            r == self.spec_color(),
    {
        match self {
            Player::Hotseat(p) => p.color,
        }
    }
}

/// A local player. Its moves arrive from the shared terminal, which
/// enforces the turn order.
#[derive(Clone, Copy, Debug, PartialEq, Eq, Structural)]
pub struct HotseatPlayer {
    pub color: Color,
}

impl HotseatPlayer {
    /// A local player for the given side.
    pub fn new(color: Color) -> (r: HotseatPlayer)
        ensures
            r.color == color,
    {
        HotseatPlayer { color }
    }
}

} // verus!
