use vstd::prelude::*;
use crate::game::GameSnapshot;
use crate::moves::Outcome;

verus! {

/// Events of the application, from the interface or from the coordinator.
#[derive(Clone, Debug)]
pub enum AppEvent {
    /// Leave the application.
    Quit,
    /// Start a new game.
    NewGame,
    /// The game changed; here is what to show.
    StateUpdate(GameSnapshot),
    /// The game ended.
    GameOver(Outcome),
    /// The move that was sent was refused.
    IllegalMove,
}

} // verus!
