//! The decisions of the game coordinator, which owns the game: the
//! application runs its loop, receives the moves and delivers the events.

use vstd::prelude::*;
use crate::event::AppEvent;
use crate::game::{is_snapshot_of, make_move_result, new_game, undo_result, Game, GameModel};
use crate::moves::ChessMove;
use crate::piece::Color;
use crate::player::{HotseatPlayer, Player};
use crate::position::game_outcome;

verus! {

/// What the interface asks of the coordinator.
#[derive(Clone, Copy, Debug, PartialEq, Eq, Structural)]
pub enum CoordinatorCommand {
    /// Play this move.
    Play(ChessMove),
    /// Take back the last move.
    Undo,
}

/// The sole authority on the game state.
pub struct Coordinator {
    pub game: Game,
    pub white: Player,
    pub black: Player,
}

/// Whether `e` is the state update for the game `g`.
pub open spec fn is_state_update(e: AppEvent, g: GameModel) -> bool {
    e matches AppEvent::StateUpdate(s) && is_snapshot_of(s, g)
}

impl Coordinator {
    /// A coordinator with a new game between two local players.
    pub fn new() -> (c: Coordinator)
        ensures
            c.game@ == new_game(),
            c.white == Player::Hotseat(HotseatPlayer { color: Color::White }),
            c.black == Player::Hotseat(HotseatPlayer { color: Color::Black }),
    {
        Coordinator {
            game: Game::new(),
            white: Player::Hotseat(HotseatPlayer::new(Color::White)),
            black: Player::Hotseat(HotseatPlayer::new(Color::Black)),
        }
    }

    /// The event to send when the coordinator starts: the state of the game.
    pub fn broadcast_state(&self) -> (e: AppEvent)
        ensures
            is_state_update(e, self.game@),
    {
        AppEvent::StateUpdate(self.game.snapshot())
    }

    /// What to do with the next command from the interface (`None` once the
    /// channel is closed). Returns the events to send, in order, and whether
    /// to go on.
    ///
    /// A closed channel stops the coordinator. A legal move is played and the
    /// new state is sent; if the game is then over, its outcome follows and
    /// the coordinator stops (a new game is a new coordinator). An illegal
    /// move is reported. Undo takes back the last move and sends the new
    /// state (nothing when there is nothing to take back).
    pub fn step(&mut self, received: Option<CoordinatorCommand>) -> (r: (Vec<AppEvent>, bool))
        ensures
            received is None ==> r.0@.len() == 0 && !r.1 && final(self).game@ == old(self).game@,
            received matches Some(CoordinatorCommand::Play(mv)) ==> {
                let (g, played) = make_move_result(old(self).game@, mv);
                &&& final(self).game@ == g
                &&& played ==> {
                    &&& r.0@.len() >= 1
                    &&& is_state_update(r.0@[0], g)
                    &&& game_outcome(g.position) matches Some(o) ==> r.0@.len() == 2 && r.0@[1]
                        == AppEvent::GameOver(o) && !r.1
                    &&& game_outcome(g.position) is None ==> r.0@.len() == 1 && r.1
                }
                &&& !played ==> r.0@ == seq![AppEvent::IllegalMove] && r.1
            },
            received == Some(CoordinatorCommand::Undo) ==> {
                let (g, undone) = undo_result(old(self).game@);
                &&& final(self).game@ == g
                &&& r.1
                &&& undone ==> r.0@.len() == 1 && is_state_update(r.0@[0], g)
                &&& !undone ==> r.0@.len() == 0
            },
            final(self).white == old(self).white,
            final(self).black == old(self).black,
    {
        let mut events: Vec<AppEvent> = Vec::new();
        match received {
            None => (events, false),
            Some(CoordinatorCommand::Play(mv)) => match self.game.make_move(mv) {
                Ok(()) => {
                    events.push(self.broadcast_state());
                    match self.game.outcome() {
                        Some(o) => {
                            events.push(AppEvent::GameOver(o));
                            (events, false)
                        },
                        None => (events, true),
                    }
                },
                Err(_) => {
                    events.push(AppEvent::IllegalMove);
                    assert(events@ =~= seq![AppEvent::IllegalMove]);
                    (events, true)
                },
            },
            Some(CoordinatorCommand::Undo) => {
                if self.game.undo() {
                    events.push(self.broadcast_state());
                }
                (events, true)
            },
        }
    }
}

} // verus!
