use borrow_checkmate::event::AppEvent;
use borrow_checkmate::game::{Game, GameSnapshot};
use borrow_checkmate::moves::{ChessMove, Outcome};
use borrow_checkmate::piece::{Color, Role};
use borrow_checkmate::router::{AppState, KeyAction, KeyPress};
use borrow_checkmate::screen::{square_down, square_left, square_right, square_up, GameScreen, Key, Screen};
use borrow_checkmate::square::Square;

fn find(game: &Game, from: Square, to: Square) -> ChessMove {
    game.snapshot()
        .legal_moves
        .iter()
        .copied()
        .find(|m| m.from() == Some(from) && m.to() == to)
        .unwrap()
}

fn snapshot_after(moves: &[(Square, Square)]) -> GameSnapshot {
    let mut game = Game::new();
    for &(from, to) in moves {
        let m = find(&game, from, to);
        game.make_move(m).unwrap();
    }
    game.snapshot()
}

/// A position where the white pawn on b7 can promote on b8 or by taking a8.
fn promotion_snapshot() -> GameSnapshot {
    snapshot_after(&[
        (Square::A2, Square::A4), (Square::B7, Square::B5),
        (Square::A4, Square::B5), (Square::A7, Square::A6),
        (Square::B5, Square::A6), (Square::C8, Square::B7),
        (Square::A6, Square::B7), (Square::B8, Square::C6),
    ])
}

fn go_to(screen: &mut GameScreen, target: Square) {
    while screen.cursor().index() / 8 < target.index() / 8 {
        screen.handle_key(Key::Up);
    }
    while screen.cursor().index() / 8 > target.index() / 8 {
        screen.handle_key(Key::Down);
    }
    while screen.cursor().index() % 8 < target.index() % 8 {
        screen.handle_key(Key::Right);
    }
    while screen.cursor().index() % 8 > target.index() % 8 {
        screen.handle_key(Key::Left);
    }
    assert_eq!(screen.cursor(), target);
}

#[test]
fn cursor_moves_stop_at_the_edges() {
    assert_eq!(square_up(Square::E4), Square::E5);
    assert_eq!(square_down(Square::E4), Square::E3);
    assert_eq!(square_left(Square::E4), Square::D4);
    assert_eq!(square_right(Square::E4), Square::F4);
    assert_eq!(square_up(Square::E8), Square::E8);
    assert_eq!(square_down(Square::E1), Square::E1);
    assert_eq!(square_left(Square::A5), Square::A5);
    assert_eq!(square_right(Square::H5), Square::H5);
    assert_eq!(square_right(Square::H1), Square::H1);
    assert_eq!(square_left(Square::A8), Square::A8);
    for i in 0..64u8 {
        let sq = Square::from_index(i);
        if i < 56 {
            assert_eq!(square_down(square_up(sq)), sq);
        }
        if i % 8 != 0 {
            assert_eq!(square_right(square_left(sq)), sq);
            assert_eq!(square_left(sq).index() / 8, i / 8);
        }
    }
}

#[test]
fn keys_do_nothing_before_the_first_state() {
    let mut screen = GameScreen::new();
    assert_eq!(screen.cursor(), Square::E4);
    assert_eq!(screen.handle_key(Key::Up), None);
    assert_eq!(screen.cursor(), Square::E4);
    assert_eq!(screen.handle_key(Key::Enter), None);
    assert!(screen.snapshot().is_none());
    assert_eq!(GameScreen::default().cursor(), Square::E4);
}

#[test]
fn picking_up_a_piece_and_moving_it() {
    let mut screen = GameScreen::new();
    screen.apply_snapshot(Game::new().snapshot());
    go_to(&mut screen, Square::E2);
    assert_eq!(screen.handle_key(Key::Enter), None);
    assert_eq!(screen.selected(), Some(Square::E2));
    assert_eq!(screen.legal_moves_from_selected().len(), 2);
    assert!(screen.wants_esc());
    go_to(&mut screen, Square::E4);
    let m = screen.handle_key(Key::Enter).unwrap();
    assert_eq!(m, ChessMove::Normal { role: Role::Pawn, from: Square::E2, capture: None, to: Square::E4, promotion: None });
    assert_eq!(screen.selected(), None);
    assert!(screen.legal_moves_from_selected().is_empty());
    assert!(!screen.wants_esc());
}

#[test]
fn only_pieces_of_the_side_to_move_are_picked_up() {
    let mut screen = GameScreen::new();
    screen.apply_snapshot(Game::new().snapshot());
    go_to(&mut screen, Square::E7);
    assert_eq!(screen.handle_key(Key::Enter), None);
    assert_eq!(screen.selected(), None);
    go_to(&mut screen, Square::E5);
    assert_eq!(screen.handle_key(Key::Enter), None);
    assert_eq!(screen.selected(), None);
}

#[test]
fn enter_on_a_square_the_piece_cannot_reach_puts_it_down() {
    let mut screen = GameScreen::new();
    screen.apply_snapshot(Game::new().snapshot());
    go_to(&mut screen, Square::G1);
    screen.handle_key(Key::Enter);
    assert_eq!(screen.selected(), Some(Square::G1));
    go_to(&mut screen, Square::G4);
    assert_eq!(screen.handle_key(Key::Enter), None);
    assert_eq!(screen.selected(), None);
    assert!(screen.legal_moves_from_selected().is_empty());
}

#[test]
fn esc_puts_the_piece_down() {
    let mut screen = GameScreen::new();
    screen.apply_snapshot(Game::new().snapshot());
    go_to(&mut screen, Square::B1);
    screen.handle_key(Key::Enter);
    assert!(screen.wants_esc());
    screen.handle_esc();
    assert_eq!(screen.selected(), None);
    assert!(!screen.wants_esc());
}

#[test]
fn promotion_asks_for_the_piece() {
    let mut screen = GameScreen::new();
    screen.apply_snapshot(promotion_snapshot());
    go_to(&mut screen, Square::B7);
    screen.handle_key(Key::Enter);
    assert_eq!(screen.selected(), Some(Square::B7));
    go_to(&mut screen, Square::B8);
    assert_eq!(screen.handle_key(Key::Enter), None);
    assert_eq!(screen.promotion_pending(), Some((Square::B7, Square::B8)));
    assert_eq!(screen.promotion_cursor(), 0);
    screen.handle_key(Key::Left);
    assert_eq!(screen.promotion_cursor(), 3);
    assert_eq!(screen.cursor(), Square::B8);
    screen.handle_key(Key::Right);
    screen.handle_key(Key::Right);
    assert_eq!(screen.promotion_cursor(), 1);
    let m = screen.handle_key(Key::Enter).unwrap();
    assert_eq!(m, ChessMove::Normal { role: Role::Pawn, from: Square::B7, capture: None, to: Square::B8, promotion: Some(Role::Rook) });
    assert_eq!(screen.promotion_pending(), None);
    assert_eq!(screen.promotion_cursor(), 0);
    assert_eq!(screen.selected(), None);
}

#[test]
fn promotion_by_capture_names_the_captured_piece() {
    let mut screen = GameScreen::new();
    screen.apply_snapshot(promotion_snapshot());
    go_to(&mut screen, Square::B7);
    screen.handle_key(Key::Enter);
    go_to(&mut screen, Square::A8);
    screen.handle_key(Key::Enter);
    assert_eq!(screen.promotion_pending(), Some((Square::B7, Square::A8)));
    let m = screen.handle_key(Key::Enter).unwrap();
    assert_eq!(m, ChessMove::Normal { role: Role::Pawn, from: Square::B7, capture: Some(Role::Rook), to: Square::A8, promotion: Some(Role::Queen) });
    let mut game = Game::new();
    for (f, t) in [
        (Square::A2, Square::A4), (Square::B7, Square::B5), (Square::A4, Square::B5), (Square::A7, Square::A6),
        (Square::B5, Square::A6), (Square::C8, Square::B7), (Square::A6, Square::B7), (Square::B8, Square::C6),
    ] {
        let mv = find(&game, f, t);
        game.make_move(mv).unwrap();
    }
    assert_eq!(game.make_move(m), Ok(()));
}

#[test]
fn esc_closes_the_promotion_dialog_and_puts_the_piece_down() {
    let mut screen = GameScreen::new();
    screen.apply_snapshot(promotion_snapshot());
    go_to(&mut screen, Square::B7);
    screen.handle_key(Key::Enter);
    go_to(&mut screen, Square::B8);
    screen.handle_key(Key::Enter);
    screen.handle_key(Key::Right);
    screen.handle_esc();
    assert_eq!(screen.promotion_pending(), None);
    assert_eq!(screen.promotion_cursor(), 0);
    assert_eq!(screen.selected(), None);
    assert!(screen.legal_moves_from_selected().is_empty());
    assert_eq!(screen.cursor(), Square::B8);
}

#[test]
fn a_new_state_keeps_the_end_of_the_game() {
    let mut screen = GameScreen::new();
    screen.apply_snapshot(Game::new().snapshot());
    screen.set_game_over(Outcome::Draw);
    screen.apply_snapshot(Game::new().snapshot());
    assert_eq!(screen.game_over(), Some(&Outcome::Draw));
    assert_eq!(screen.handle_key(Key::Up), None);
    assert_eq!(screen.cursor(), Square::E4);
}

#[test]
fn keys_are_ignored_after_the_game_is_over() {
    let mut screen = GameScreen::new();
    screen.apply_snapshot(Game::new().snapshot());
    screen.set_game_over(Outcome::Draw);
    assert_eq!(screen.game_over(), Some(&Outcome::Draw));
    assert_eq!(screen.handle_key(Key::Up), None);
    assert_eq!(screen.cursor(), Square::E4);
}

#[test]
fn the_illegal_move_flash_fades_over_ten_ticks() {
    let mut screen = GameScreen::new();
    screen.flash_illegal();
    assert_eq!(screen.illegal_flash(), 10);
    for left in (0..10).rev() {
        screen.tick();
        assert_eq!(screen.illegal_flash(), left);
    }
    screen.tick();
    assert_eq!(screen.illegal_flash(), 0);
    screen.flash_illegal();
    screen.apply_snapshot(Game::new().snapshot());
    assert_eq!(screen.illegal_flash(), 0);
}

#[test]
fn the_screen_enum_passes_keys_on() {
    let mut screen = Screen::Game(GameScreen::new());
    screen.apply_snapshot(Game::new().snapshot());
    assert_eq!(screen.handle_key(Key::Down), None);
    assert!(!screen.wants_esc());
    screen.flash_illegal();
    screen.tick();
    screen.set_game_over(Outcome::Decisive { winner: Color::White });
    screen.handle_esc();
    match &screen {
        Screen::Game(g) => {
            assert_eq!(g.cursor(), Square::E3);
            assert_eq!(g.illegal_flash(), 9);
            assert_eq!(g.game_over(), Some(&Outcome::Decisive { winner: Color::White }));
        }
    }
}

fn press(code: Key) -> KeyPress {
    KeyPress { code, ctrl: false }
}

#[test]
fn q_quits_anywhere_and_esc_cancels_first() {
    let mut app = AppState::new();
    assert!(app.running);
    assert_eq!(app.handle_key_press(press(Key::Char('q'))), KeyAction::Quit);
    assert_eq!(app.handle_key_press(press(Key::Esc)), KeyAction::Quit);
    app.route(AppEvent::StateUpdate(Game::new().snapshot()));
    app.handle_key_press(press(Key::Down));
    app.handle_key_press(press(Key::Down));
    assert_eq!(app.handle_key_press(press(Key::Enter)), KeyAction::Nothing);
    assert!(app.screen.wants_esc());
    assert_eq!(app.handle_key_press(press(Key::Char('q'))), KeyAction::Quit);
    assert!(app.screen.wants_esc());
    assert_eq!(app.handle_key_press(press(Key::Esc)), KeyAction::Nothing);
    assert!(!app.screen.wants_esc());
    assert!(!app.route(AppEvent::Quit));
    assert!(!app.running);
}

#[test]
fn control_c_quits_n_starts_a_new_game_and_u_undoes() {
    let mut app = AppState::new();
    assert_eq!(app.handle_key_press(KeyPress { code: Key::Char('c'), ctrl: true }), KeyAction::Quit);
    assert_eq!(app.handle_key_press(press(Key::Char('c'))), KeyAction::Nothing);
    assert_eq!(app.handle_key_press(press(Key::Char('n'))), KeyAction::NewGame);
    assert_eq!(app.handle_key_press(KeyPress { code: Key::Char('n'), ctrl: true }), KeyAction::NewGame);
    assert_eq!(app.handle_key_press(press(Key::Char('u'))), KeyAction::Undo);
}

#[test]
fn a_completed_move_is_sent() {
    let mut app = AppState::new();
    app.route(AppEvent::StateUpdate(Game::new().snapshot()));
    app.handle_key_press(press(Key::Down));
    app.handle_key_press(press(Key::Down));
    app.handle_key_press(press(Key::Enter));
    app.handle_key_press(press(Key::Up));
    app.handle_key_press(press(Key::Up));
    let action = app.handle_key_press(press(Key::Enter));
    assert_eq!(
        action,
        KeyAction::SendMove(ChessMove::Normal { role: Role::Pawn, from: Square::E2, capture: None, to: Square::E4, promotion: None })
    );
}

#[test]
fn events_reach_the_screen() {
    let mut app = AppState::new();
    assert!(!app.route(AppEvent::StateUpdate(Game::new().snapshot())));
    assert!(!app.route(AppEvent::IllegalMove));
    match &app.screen {
        Screen::Game(g) => {
            assert!(g.snapshot().is_some());
            assert_eq!(g.illegal_flash(), 10);
        }
    }
    assert!(!app.route(AppEvent::GameOver(Outcome::Draw)));
    match &app.screen {
        Screen::Game(g) => assert_eq!(g.game_over(), Some(&Outcome::Draw)),
    }
    assert!(app.route(AppEvent::NewGame));
    match &app.screen {
        Screen::Game(g) => {
            assert!(g.snapshot().is_none());
            assert!(g.game_over().is_none());
            assert_eq!(g.cursor(), Square::E4);
        }
    }
    assert!(app.running);
}

#[test]
fn every_confirmed_promotion_is_a_legal_move() {
    let snapshot = promotion_snapshot();
    for target in [Square::B8, Square::A8] {
        for steps in 0..4 {
            let mut screen = GameScreen::new();
            screen.apply_snapshot(snapshot.clone());
            go_to(&mut screen, Square::B7);
            screen.handle_key(Key::Enter);
            go_to(&mut screen, target);
            assert_eq!(screen.handle_key(Key::Enter), None);
            for _ in 0..steps {
                screen.handle_key(Key::Right);
            }
            let m = screen.handle_key(Key::Enter).unwrap();
            assert!(snapshot.legal_moves.contains(&m), "{:?} is not legal", m);
        }
    }
}
