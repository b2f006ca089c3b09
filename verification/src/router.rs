//! The decisions of the application: which screen gets a key or an event.

use vstd::prelude::*;
use crate::event::AppEvent;
use crate::moves::ChessMove;
use crate::screen::{esc_result, key_result, new_screen, snapshot_result, GameScreen, Key, Screen, ScreenView};

verus! {

/// A key press, with whether Control (and no other modifier) was held.
#[derive(Clone, Copy, Debug, PartialEq, Eq, Structural)]
pub struct KeyPress {
    pub code: Key,
    pub ctrl: bool,
}

/// What the application does after a key press.
#[derive(Clone, Copy, Debug, PartialEq, Eq, Structural)]
pub enum KeyAction {
    /// Nothing beyond the change of the screen.
    Nothing,
    /// Send `AppEvent::Quit` to the event loop.
    Quit,
    /// Send `AppEvent::NewGame` to the event loop.
    NewGame,
    /// Ask the coordinator to take back the last move.
    Undo,
    /// Send the move to the coordinator.
    SendMove(ChessMove),
}

/// The state of the application that its decisions read: whether it runs,
/// and the active screen.
pub struct AppState {
    pub running: bool,
    pub screen: Screen,
}

/// What a key press does: `q` and Control-c quit anywhere; Esc cancels what
/// the screen has to cancel (the promotion dialog, a picked-up piece) and
/// quits otherwise; `n` starts a new game; `u` takes back the last move; any
/// other key goes to the screen, which may complete a move.
pub open spec fn key_press_result(running: bool, v: ScreenView, key: KeyPress) -> (bool, ScreenView, KeyAction) {
    match key.code {
        Key::Char('q') => (running, v, KeyAction::Quit),
        Key::Esc => if !(v.promotion_pending is Some || v.selected is Some) {
            (running, v, KeyAction::Quit)
        } else {
            (running, esc_result(v), KeyAction::Nothing)
        },
        Key::Char('c') if key.ctrl => (running, v, KeyAction::Quit),
        Key::Char('n') => (running, v, KeyAction::NewGame),
        Key::Char('u') => (running, v, KeyAction::Undo),
        _ => {
            let r = key_result(v, key.code);
            match r.1 {
                Some(mv) => (running, r.0, KeyAction::SendMove(mv)),
                None => (running, r.0, KeyAction::Nothing),
            }
        },
    }
}

impl AppState {
    /// A running application on a new game screen.
    pub fn new() -> (a: AppState)
        ensures
            a.running,
            a.screen@ == new_screen(),
    {
        AppState { running: true, screen: Screen::Game(GameScreen::new()) }
    }

    /// Handles a key press; returns what the application must send.
    pub fn handle_key_press(&mut self, key: KeyPress) -> (r: KeyAction)
        ensures
            (final(self).running, final(self).screen@, r) == key_press_result(
                old(self).running,
                old(self).screen@,
                key,
            ),
    {
        match key.code {
            Key::Char('q') => KeyAction::Quit,
            Key::Esc => {
                if !self.screen.wants_esc() {
                    KeyAction::Quit
                } else {
                    self.screen.handle_esc();
                    KeyAction::Nothing
                }
            },
            Key::Char('c') if key.ctrl => KeyAction::Quit,
            Key::Char('n') => KeyAction::NewGame,
            Key::Char('u') => KeyAction::Undo,
            _ => match self.screen.handle_key(key.code) {
                Some(mv) => KeyAction::SendMove(mv),
                None => KeyAction::Nothing,
            },
        }
    }

    /// Routes an event and returns whether to start a new coordinator: Quit
    /// stops the application; NewGame puts up a new game screen and asks for
    /// a new coordinator (with a new game, whose state then arrives, see
    /// `Coordinator::new` and `broadcast_state`); the coordinator's events go
    /// to the screen.
    pub fn route(&mut self, event: AppEvent) -> (restart: bool)
        ensures
            match event {
                AppEvent::Quit => !final(self).running && final(self).screen@ == old(self).screen@
                    && !restart,
                AppEvent::NewGame => final(self).running == old(self).running && final(self).screen@
                    == new_screen() && restart,
                AppEvent::StateUpdate(s) => final(self).running == old(self).running
                    && final(self).screen@ == snapshot_result(old(self).screen@, s) && !restart,
                AppEvent::GameOver(o) => final(self).running == old(self).running
                    && final(self).screen@ == (ScreenView {
                    game_over: Some(o),
                    ..old(self).screen@
                }) && !restart,
                AppEvent::IllegalMove => final(self).running == old(self).running
                    && final(self).screen@ == (ScreenView {
                    illegal_flash: 10,
                    ..old(self).screen@
                }) && !restart,
            },
    {
        match event {
            AppEvent::Quit => {
                self.running = false;
                false
            },
            AppEvent::NewGame => {
                self.screen = Screen::Game(GameScreen::new());
                true
            },
            AppEvent::StateUpdate(snapshot) => {
                self.screen.apply_snapshot(snapshot);
                false
            },
            AppEvent::GameOver(outcome) => {
                self.screen.set_game_over(outcome);
                false
            },
            AppEvent::IllegalMove => {
                self.screen.flash_illegal();
                false
            },
        }
    }
}

} // verus!
