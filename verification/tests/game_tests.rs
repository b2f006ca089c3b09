use borrow_checkmate::coordinator::{Coordinator, CoordinatorCommand};
use borrow_checkmate::event::AppEvent;
use borrow_checkmate::game::{Game, IllegalMove};
use borrow_checkmate::moves::{ChessMove, Outcome};
use borrow_checkmate::piece::{Color, Piece, Role};
use borrow_checkmate::player::{HotseatPlayer, Player};
use borrow_checkmate::square::Square;

/// The legal move of the game from `from` to `to` (the first one, for promotions).
fn find(game: &Game, from: Square, to: Square) -> ChessMove {
    game.snapshot()
        .legal_moves
        .iter()
        .copied()
        .find(|m| m.from() == Some(from) && m.to() == to)
        .unwrap_or_else(|| panic!("no legal move {:?}-{:?}", from, to))
}

fn play(game: &mut Game, moves: &[(Square, Square)]) {
    for &(from, to) in moves {
        let m = find(game, from, to);
        assert_eq!(game.make_move(m), Ok(()));
    }
}

fn debug<T: std::fmt::Debug>(t: &T) -> String {
    format!("{:?}", t)
}

#[test]
fn new_game_starts_with_white_to_move() {
    let game = Game::new();
    let s = game.snapshot();
    assert_eq!(s.turn, Color::White);
    assert!(!s.is_check);
    assert_eq!(s.legal_moves.len(), 20);
    assert_eq!(s.last_move, None);
    assert_eq!(s.outcome, None);
    assert!(s.move_history.is_empty());
    assert!(s.captured_white.is_empty());
    assert!(s.captured_black.is_empty());
    assert_eq!(s.board.piece_at(Square::E1), Some(Piece { color: Color::White, role: Role::King }));
    assert_eq!(s.board.piece_at(Square::D8), Some(Piece { color: Color::Black, role: Role::Queen }));
    assert_eq!(s.board.piece_at(Square::E2), Some(Piece { color: Color::White, role: Role::Pawn }));
    assert_eq!(s.board.piece_at(Square::E4), None);
    assert_eq!(s.board.king_of(Color::White), Some(Square::E1));
    assert_eq!(s.board.king_of(Color::Black), Some(Square::E8));
    assert_eq!(game.outcome(), None);
    assert_eq!(debug(&Game::default().snapshot()), debug(&s));
}

#[test]
fn legal_moves_from_a_square() {
    let game = Game::new();
    let from_e2 = game.legal_moves_from(Square::E2);
    assert_eq!(from_e2.len(), 2);
    assert!(from_e2.iter().all(|m| m.from() == Some(Square::E2)));
    let targets: Vec<Square> = from_e2.iter().map(|m| m.to()).collect();
    assert!(targets.contains(&Square::E3) && targets.contains(&Square::E4));
    assert_eq!(game.legal_moves_from(Square::G1).len(), 2);
    assert!(game.legal_moves_from(Square::E4).is_empty());
    assert!(game.legal_moves_from(Square::E7).is_empty());
}

#[test]
fn a_legal_move_is_played() {
    let mut game = Game::new();
    let e4 = ChessMove::Normal { role: Role::Pawn, from: Square::E2, capture: None, to: Square::E4, promotion: None };
    assert_eq!(game.make_move(e4), Ok(()));
    let s = game.snapshot();
    assert_eq!(s.turn, Color::Black);
    assert_eq!(s.last_move, Some(e4));
    assert_eq!(s.move_history, vec![e4]);
    assert_eq!(s.board.piece_at(Square::E4), Some(Piece { color: Color::White, role: Role::Pawn }));
    assert_eq!(s.board.piece_at(Square::E2), None);
    assert_eq!(s.legal_moves.len(), 20);
}

#[test]
fn an_illegal_move_is_refused_and_the_position_stays() {
    let mut game = Game::new();
    let before = game.snapshot();
    let bad = ChessMove::Normal { role: Role::Pawn, from: Square::E2, capture: None, to: Square::E5, promotion: None };
    assert_eq!(game.make_move(bad), Err(IllegalMove { m: bad }));
    assert_eq!(debug(&game.snapshot()), debug(&before));
    // The position before the refused move was saved all the same: undo finds it.
    assert!(game.undo());
    assert_eq!(debug(&game.snapshot()), debug(&before));
    assert!(!game.undo());
}

#[test]
fn a_wrong_capture_field_makes_a_move_illegal() {
    let mut game = Game::new();
    let wrong = ChessMove::Normal { role: Role::Pawn, from: Square::E2, capture: Some(Role::Pawn), to: Square::E4, promotion: None };
    assert!(game.make_move(wrong).is_err());
    assert_eq!(game.snapshot().turn, Color::White);
}

#[test]
fn undo_on_a_new_game_does_nothing() {
    let mut game = Game::new();
    let before = debug(&game.snapshot());
    assert!(!game.undo());
    assert_eq!(debug(&game.snapshot()), before);
}

#[test]
fn undo_takes_back_the_last_move() {
    let mut game = Game::new();
    play(&mut game, &[(Square::E2, Square::E4), (Square::D7, Square::D5)]);
    let before = debug(&game.snapshot());
    play(&mut game, &[(Square::E4, Square::D5)]);
    assert_eq!(game.snapshot().captured_white, vec![Role::Pawn]);
    assert!(game.undo());
    assert_eq!(debug(&game.snapshot()), before);
    assert!(game.undo());
    assert!(game.undo());
    assert_eq!(debug(&game.snapshot()), debug(&Game::new().snapshot()));
    assert!(!game.undo());
}

#[test]
fn captures_are_listed_by_the_side_that_captured() {
    let mut game = Game::new();
    // 1. e4 d5 2. exd5: White takes a pawn.
    play(&mut game, &[(Square::E2, Square::E4), (Square::D7, Square::D5), (Square::E4, Square::D5)]);
    let s = game.snapshot();
    assert_eq!(s.captured_white, vec![Role::Pawn]);
    assert!(s.captured_black.is_empty());
    // 2... Qxd5: Black takes a pawn back.
    play(&mut game, &[(Square::D8, Square::D5)]);
    let s = game.snapshot();
    assert_eq!(s.captured_white, vec![Role::Pawn]);
    assert_eq!(s.captured_black, vec![Role::Pawn]);
    assert!(game.undo());
    let s = game.snapshot();
    assert_eq!(s.captured_white, vec![Role::Pawn]);
    assert!(s.captured_black.is_empty());
}

#[test]
fn a_refused_move_is_saved_for_undo() {
    let mut game = Game::new();
    play(&mut game, &[(Square::E2, Square::E4)]);
    let board = debug(&game.snapshot().board);
    let bad = ChessMove::Normal { role: Role::Pawn, from: Square::E4, capture: None, to: Square::E6, promotion: None };
    assert_eq!(game.make_move(bad), Err(IllegalMove { m: bad }));
    assert_eq!(game.snapshot().move_history.len(), 1);
    // The saved position is the current one: undo keeps the board and drops
    // the last played move from the list.
    assert!(game.undo());
    let s = game.snapshot();
    assert_eq!(debug(&s.board), board);
    assert!(s.move_history.is_empty());
}

#[test]
fn en_passant_counts_as_a_pawn_capture() {
    let mut game = Game::new();
    // 1. e4 a6 2. e5 d5 3. exd6 e.p.
    play(&mut game, &[(Square::E2, Square::E4), (Square::A7, Square::A6), (Square::E4, Square::E5), (Square::D7, Square::D5)]);
    let ep = find(&game, Square::E5, Square::D6);
    assert_eq!(ep, ChessMove::EnPassant { from: Square::E5, to: Square::D6 });
    assert_eq!(ep.capture(), Some(Role::Pawn));
    assert_eq!(game.make_move(ep), Ok(()));
    let s = game.snapshot();
    assert_eq!(s.captured_white, vec![Role::Pawn]);
    assert_eq!(s.board.piece_at(Square::D5), None);
    assert!(game.undo());
    assert!(game.snapshot().captured_white.is_empty());
}

#[test]
fn checkmate_ends_the_game_with_a_winner() {
    let mut game = Game::new();
    // Fool's mate: 1. f3 e5 2. g4 Qh4#
    play(&mut game, &[(Square::F2, Square::F3), (Square::E7, Square::E5), (Square::G2, Square::G4), (Square::D8, Square::H4)]);
    let s = game.snapshot();
    assert!(s.is_check);
    assert!(s.legal_moves.is_empty());
    assert_eq!(s.outcome, Some(Outcome::Decisive { winner: Color::Black }));
    assert_eq!(game.outcome(), Some(Outcome::Decisive { winner: Color::Black }));
    assert!(game.undo());
    assert_eq!(game.outcome(), None);
}

#[test]
fn stalemate_ends_the_game_in_a_draw() {
    let mut game = Game::new();
    // Sam Loyd's ten-move stalemate.
    play(
        &mut game,
        &[
            (Square::E2, Square::E3), (Square::A7, Square::A5),
            (Square::D1, Square::H5), (Square::A8, Square::A6),
            (Square::H5, Square::A5), (Square::H7, Square::H5),
            (Square::H2, Square::H4), (Square::A6, Square::H6),
            (Square::A5, Square::C7), (Square::F7, Square::F6),
            (Square::C7, Square::D7), (Square::E8, Square::F7),
            (Square::D7, Square::B7), (Square::D8, Square::D3),
            (Square::B7, Square::B8), (Square::D3, Square::H7),
            (Square::B8, Square::C8), (Square::F7, Square::G6),
            (Square::C8, Square::E6),
        ],
    );
    let s = game.snapshot();
    assert!(!s.is_check);
    assert!(s.legal_moves.is_empty());
    assert_eq!(s.outcome, Some(Outcome::Draw));
    assert_eq!(s.turn, Color::Black);
    assert_eq!(s.captured_white, vec![Role::Pawn, Role::Pawn, Role::Pawn, Role::Pawn, Role::Knight, Role::Bishop]);
    assert!(s.captured_black.is_empty());
}

#[test]
fn players_know_their_side() {
    let white = Player::Hotseat(HotseatPlayer::new(Color::White));
    let black = Player::Hotseat(HotseatPlayer::new(Color::Black));
    assert_eq!(white.color(), Color::White);
    assert_eq!(black.color(), Color::Black);
    assert_eq!(HotseatPlayer::new(Color::Black).color, Color::Black);
    assert_eq!(Color::White.other(), Color::Black);
    assert_eq!(Color::Black.name(), "black");
}

#[test]
fn coordinator_starts_with_the_initial_state() {
    let c = Coordinator::new();
    assert_eq!(c.white.color(), Color::White);
    assert_eq!(c.black.color(), Color::Black);
    match c.broadcast_state() {
        AppEvent::StateUpdate(s) => assert_eq!(debug(&s), debug(&Game::new().snapshot())),
        other => panic!("unexpected {:?}", other),
    }
}

#[test]
fn coordinator_plays_legal_moves_and_reports_illegal_ones() {
    let mut c = Coordinator::new();
    let e4 = find(&c.game, Square::E2, Square::E4);
    let (events, go_on) = c.step(Some(CoordinatorCommand::Play(e4)));
    assert!(go_on);
    assert_eq!(events.len(), 1);
    match &events[0] {
        AppEvent::StateUpdate(s) => assert_eq!(s.last_move, Some(e4)),
        other => panic!("unexpected {:?}", other),
    }
    let (events, go_on) = c.step(Some(CoordinatorCommand::Play(e4)));
    assert!(go_on);
    assert_eq!(events.len(), 1);
    assert!(matches!(events[0], AppEvent::IllegalMove));
    let (events, go_on) = c.step(None);
    assert!(!go_on);
    assert!(events.is_empty());
}

#[test]
fn coordinator_stops_when_the_game_is_over() {
    let mut c = Coordinator::new();
    for (from, to) in [(Square::F2, Square::F3), (Square::E7, Square::E5), (Square::G2, Square::G4)] {
        let m = find(&c.game, from, to);
        let (events, go_on) = c.step(Some(CoordinatorCommand::Play(m)));
        assert!(go_on);
        assert_eq!(events.len(), 1);
    }
    let mate = find(&c.game, Square::D8, Square::H4);
    let (events, go_on) = c.step(Some(CoordinatorCommand::Play(mate)));
    assert!(!go_on);
    assert_eq!(events.len(), 2);
    assert!(matches!(events[0], AppEvent::StateUpdate(_)));
    assert!(matches!(events[1], AppEvent::GameOver(Outcome::Decisive { winner: Color::Black })));
}

#[test]
fn coordinator_undoes_the_last_move() {
    let mut c = Coordinator::new();
    let (events, go_on) = c.step(Some(CoordinatorCommand::Undo));
    assert!(go_on);
    assert!(events.is_empty());
    let e4 = find(&c.game, Square::E2, Square::E4);
    c.step(Some(CoordinatorCommand::Play(e4)));
    let (events, go_on) = c.step(Some(CoordinatorCommand::Undo));
    assert!(go_on);
    assert_eq!(events.len(), 1);
    match &events[0] {
        AppEvent::StateUpdate(s) => assert_eq!(debug(s), debug(&Game::new().snapshot())),
        other => panic!("unexpected {:?}", other),
    }
}

#[test]
fn moves_report_their_parts() {
    let castle = ChessMove::Castle { king: Square::E1, rook: Square::H1 };
    assert_eq!(castle.from(), Some(Square::E1));
    assert_eq!(castle.to(), Square::H1);
    assert_eq!(castle.capture(), None);
    assert_eq!(castle.role(), Role::King);
    let put = ChessMove::Put { role: Role::Knight, to: Square::C3 };
    assert_eq!(put.from(), None);
    let promo = ChessMove::Normal { role: Role::Pawn, from: Square::B7, capture: Some(Role::Rook), to: Square::A8, promotion: Some(Role::Queen) };
    assert!(promo.is_promotion());
    assert_eq!(promo.capture(), Some(Role::Rook));
    assert_eq!(Outcome::Decisive { winner: Color::White }.as_str(), "1-0");
    assert_eq!(Outcome::Decisive { winner: Color::Black }.as_str(), "0-1");
    assert_eq!(Outcome::Draw.as_str(), "1/2-1/2");
}

#[test]
fn squares_are_numbered_from_a1() {
    assert_eq!(Square::A1.index(), 0);
    assert_eq!(Square::H1.index(), 7);
    assert_eq!(Square::E4.index(), 28);
    assert_eq!(Square::H8.index(), 63);
    assert_eq!(Square::from_index(28), Square::E4);
    assert_eq!(Square::from_index(63), Square::H8);
    assert_eq!(Square::from_index(64), Square::A1);
    assert_eq!(Square::from_index(255), Square::A1);
    assert_eq!(Square::new(12), Square::E2);
    for i in 0..64u8 {
        assert_eq!(Square::from_index(i).index(), i);
    }
    assert_eq!(Role::from_number(1), Role::Pawn);
    assert_eq!(Role::from_number(6), Role::King);
    assert_eq!(Role::from_number(0), Role::Pawn);
    assert_eq!(Role::Queen.index(), 4);
}
