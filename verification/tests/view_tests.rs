use borrow_checkmate::board_view::{
    board_cell, board_metrics, file_label, file_label_position, piece_char, rank_label, rank_label_position,
    square_color, square_text_position, CellColor, CellContent,
};
use borrow_checkmate::game::{Game, GameSnapshot};
use borrow_checkmate::gameover_view::{GameOverPopup, PopupStyle};
use borrow_checkmate::geometry::{centered_constraints, centered_rect, game_layout, LayoutConstraint, Rect};
use borrow_checkmate::info_view::{captured_symbols, info_line_area, info_lines, role_char, InfoStyle};
use borrow_checkmate::moves::{ChessMove, Outcome};
use borrow_checkmate::piece::{Color, Piece, Role};
use borrow_checkmate::promotion_view::{self, promotion_areas, promotion_layout, promotion_popup};
use borrow_checkmate::screen::{GameScreen, Key};
use borrow_checkmate::square::Square;

fn find(game: &Game, from: Square, to: Square) -> ChessMove {
    game.snapshot()
        .legal_moves
        .iter()
        .copied()
        .find(|m| m.from() == Some(from) && m.to() == to)
        .unwrap()
}

fn snapshot_after(moves: &[(Square, Square)]) -> GameSnapshot {
    let mut game = Game::new();
    for &(from, to) in moves {
        let m = find(&game, from, to);
        game.make_move(m).unwrap();
    }
    game.snapshot()
}

fn rect(x: u16, y: u16, width: u16, height: u16) -> Rect {
    Rect { x, y, width, height }
}

#[test]
fn square_colors_alternate() {
    assert_eq!(square_color(0, 0), CellColor::Rgb(181, 136, 99));
    assert_eq!(square_color(0, 1), CellColor::Rgb(240, 217, 181));
    assert_eq!(square_color(7, 7), CellColor::Rgb(181, 136, 99));
}

#[test]
fn piece_symbols_and_labels() {
    assert_eq!(piece_char(Piece { color: Color::White, role: Role::King }), "♔");
    assert_eq!(piece_char(Piece { color: Color::Black, role: Role::Pawn }), "♟");
    assert_eq!(piece_char(Piece { color: Color::Black, role: Role::Knight }), "♞");
    assert_eq!(rank_label(0), '1');
    assert_eq!(rank_label(7), '8');
    assert_eq!(file_label(0), 'a');
    assert_eq!(file_label(7), 'h');
    assert_eq!(CellContent::MoveHint.text(), "·");
    assert_eq!(CellContent::Empty.text(), "  ");
    assert!(CellContent::MoveHint.is_dim());
    assert!(!CellContent::Empty.is_dim());
    assert_eq!(role_char(Role::King, Color::White), "");
    assert_eq!(role_char(Role::Queen, Color::Black), "♛");
    assert_eq!(promotion_view::role_char(Role::Pawn, Color::White), "");
    assert_eq!(promotion_view::role_char(Role::Knight, Color::White), "♘");
}

#[test]
fn board_cells_show_cursor_selection_hints_and_last_move() {
    let mut screen = GameScreen::new();
    assert!(board_cell(&screen, 0, 0).is_none());
    screen.apply_snapshot(Game::new().snapshot());
    let cursor = board_cell(&screen, 3, 4).unwrap();
    assert_eq!(cursor.background, CellColor::Rgb(100, 111, 64));
    assert_eq!(cursor.content, CellContent::Empty);
    let king = board_cell(&screen, 0, 4).unwrap();
    assert_eq!(king.content, CellContent::Piece(Piece { color: Color::White, role: Role::King }));
    assert_eq!(king.background, CellColor::Rgb(181, 136, 99));
    screen.handle_key(Key::Down);
    screen.handle_key(Key::Down);
    screen.handle_key(Key::Enter);
    assert_eq!(board_cell(&screen, 1, 4).unwrap().background, CellColor::Rgb(130, 151, 105));
    assert_eq!(board_cell(&screen, 2, 4).unwrap().content, CellContent::MoveHint);
    assert_eq!(board_cell(&screen, 3, 4).unwrap().content, CellContent::MoveHint);
    assert_eq!(board_cell(&screen, 4, 4).unwrap().content, CellContent::Empty);
    screen.apply_snapshot(snapshot_after(&[(Square::E2, Square::E4)]));
    assert_eq!(board_cell(&screen, 1, 4).unwrap().background, CellColor::Rgb(205, 210, 106));
    assert_eq!(board_cell(&screen, 3, 4).unwrap().background, CellColor::Rgb(205, 210, 106));
}

#[test]
fn the_king_in_check_is_red() {
    let mut screen = GameScreen::new();
    screen.apply_snapshot(snapshot_after(&[
        (Square::F2, Square::F3), (Square::E7, Square::E5), (Square::G2, Square::G4), (Square::D8, Square::H4),
    ]));
    assert_eq!(board_cell(&screen, 0, 4).unwrap().background, CellColor::Red);
    assert_eq!(board_cell(&screen, 7, 4).unwrap().background, CellColor::Rgb(240, 217, 181));
}

#[test]
fn board_geometry() {
    let area = rect(0, 0, 60, 30);
    assert_eq!(board_metrics(area), Some((3, 7)));
    assert_eq!(board_metrics(rect(0, 0, 18, 30)), None);
    assert_eq!(board_metrics(rect(0, 0, 60, 10)), None);
    assert_eq!(board_metrics(rect(0, 0, 60, 11)), Some((1, 7)));
    // Rank 1 is the bottom row of squares, rank 8 the top one.
    assert_eq!(square_text_position(area, 0, 0), (4, 22));
    assert_eq!(square_text_position(area, 7, 7), (53, 1));
    // Rank labels in the column inside the left border, on their rank's row.
    assert_eq!(rank_label_position(area, 0), (1, 22));
    assert_eq!(rank_label_position(area, 7), (1, 1));
    // File labels on the row below rank 1, inside the bottom border, under the squares.
    assert_eq!(file_label_position(area, 2), (18, 25));
    assert_eq!(file_label_position(area, 0), (square_text_position(area, 0, 0).0, 25));
}

#[test]
fn info_lines_are_drawn_inside_the_border() {
    let area = rect(0, 0, 20, 5);
    assert_eq!(info_line_area(area, 0), Some(rect(1, 1, 18, 1)));
    assert_eq!(info_line_area(area, 2), Some(rect(1, 3, 18, 1)));
    assert_eq!(info_line_area(area, 3), None);
    assert_eq!(info_line_area(rect(5, 5, 1, 1), 0), None);
}

#[test]
fn info_panel_lines() {
    let mut screen = GameScreen::new();
    assert!(info_lines(&screen).is_none());
    screen.apply_snapshot(snapshot_after(&[
        (Square::E2, Square::E4), (Square::D7, Square::D5), (Square::E4, Square::D5), (Square::D8, Square::D5),
    ]));
    screen.flash_illegal();
    let lines = info_lines(&screen).unwrap();
    let texts: Vec<(String, String, InfoStyle)> =
        lines.into_iter().map(|l| (l.label, l.text, l.style)).collect();
    let s = |t: &str| t.to_string();
    assert_eq!(
        texts,
        vec![
            (s(""), s("White's turn"), InfoStyle::Turn),
            (s(""), s("Illegal move!"), InfoStyle::Alert),
            (s(""), s(""), InfoStyle::Plain),
            (s("Captured by White: "), s("♟"), InfoStyle::CapturedByWhite),
            (s("Captured by Black: "), s("♙"), InfoStyle::CapturedByBlack),
            (s(""), s(""), InfoStyle::Plain),
            (s(""), s("Controls: [n] New  [u] Undo  [q] Quit"), InfoStyle::Plain),
        ]
    );
}

#[test]
fn info_panel_reports_check_and_game_over() {
    let mut screen = GameScreen::new();
    screen.apply_snapshot(snapshot_after(&[
        (Square::F2, Square::F3), (Square::E7, Square::E5), (Square::G2, Square::G4), (Square::D8, Square::H4),
    ]));
    let lines = info_lines(&screen).unwrap();
    assert_eq!(lines[0].text, "White's turn");
    assert_eq!(lines[1].text, "Check!");
    assert_eq!(lines.len(), 5);
    screen.set_game_over(Outcome::Decisive { winner: Color::Black });
    let lines = info_lines(&screen).unwrap();
    assert_eq!(lines[1].text, "Game Over: 0-1");
    assert_eq!(lines[1].style, InfoStyle::Alert);
}

#[test]
fn captured_symbols_in_order() {
    assert_eq!(captured_symbols(&vec![Role::Pawn, Role::Knight, Role::Queen], Color::White), "♙♘♕");
    assert_eq!(captured_symbols(&vec![], Color::Black), "");
}

#[test]
fn promotion_dialog_layout() {
    assert_eq!(promotion_popup(rect(0, 0, 100, 40)), rect(30, 16, 40, 7));
    assert_eq!(promotion_popup(rect(10, 5, 20, 4)), rect(10, 5, 20, 4));
    let (popup, inner) = promotion_areas(rect(0, 0, 100, 40));
    assert_eq!(popup, rect(30, 16, 40, 7));
    assert_eq!(inner, rect(31, 17, 38, 5));
    let mut screen = GameScreen::new();
    assert!(promotion_layout(&screen, inner).is_none());
    screen.apply_snapshot(Game::new().snapshot());
    assert!(promotion_layout(&screen, rect(0, 0, 38, 3)).is_none());
    let layout = promotion_layout(&screen, inner).unwrap();
    assert_eq!((layout.piece_row, layout.label_row, layout.caret_row), (18, 19, 20));
    assert_eq!(layout.help_x, 41);
    let xs: Vec<u16> = layout.entries.iter().map(|e| e.x).collect();
    assert_eq!(xs, vec![34, 43, 52, 61]);
    let symbols: Vec<&str> = layout.entries.iter().map(|e| e.symbol).collect();
    assert_eq!(symbols, vec!["♕", "♖", "♗", "♘"]);
    let labels: Vec<&str> = layout.entries.iter().map(|e| e.label).collect();
    assert_eq!(labels, vec!["Q", "R", "B", "N"]);
    let selected: Vec<bool> = layout.entries.iter().map(|e| e.selected).collect();
    assert_eq!(selected, vec![true, false, false, false]);
}

#[test]
fn bordered_blocks_shrink_by_one_cell() {
    assert_eq!(promotion_areas(rect(0, 0, 10, 5)), (rect(0, 0, 10, 5), rect(1, 1, 8, 3)));
    assert_eq!(promotion_areas(rect(4, 4, 1, 1)), (rect(4, 4, 1, 1), rect(5, 5, 0, 0)));
    assert_eq!(promotion_areas(rect(4, 4, 0, 0)), (rect(4, 4, 0, 0), rect(4, 4, 0, 0)));
    assert_eq!(GameOverPopup::areas(rect(0, 0, 100, 40)), (rect(20, 10, 60, 20), rect(21, 11, 58, 18)));
}

#[test]
fn centered_constraints_put_the_part_in_the_middle() {
    assert_eq!(
        centered_constraints(60),
        vec![LayoutConstraint::Percentage(20), LayoutConstraint::Percentage(60), LayoutConstraint::Percentage(20)]
    );
    assert_eq!(
        centered_constraints(51),
        vec![LayoutConstraint::Percentage(24), LayoutConstraint::Percentage(51), LayoutConstraint::Percentage(24)]
    );
}

#[test]
fn layouts_split_the_screen() {
    assert_eq!(centered_rect(60, 50, rect(0, 0, 100, 40)), rect(20, 10, 60, 20));
    assert_eq!(centered_rect(100, 100, rect(3, 4, 10, 10)), rect(3, 4, 10, 10));
    let (board, info) = game_layout(rect(0, 0, 100, 30));
    assert_eq!(board.x, 1);
    assert_eq!(board.y, 1);
    assert_eq!(board.height, 28);
    assert!(board.width >= 60);
    assert!(info.width >= 20);
    assert_eq!(board.width + info.width, 98);
}

#[test]
fn game_over_popup_text() {
    let win = GameOverPopup::new(Outcome::Decisive { winner: Color::White });
    assert_eq!(win.winner_text(), "white wins!");
    assert_eq!(win.outcome_detail(), "Checkmate");
    let draw = GameOverPopup::new(Outcome::Draw);
    assert_eq!(draw.winner_text(), "Draw!");
    assert_eq!(draw.outcome_detail(), "Stalemate");
    let lines = win.lines();
    assert_eq!(lines.len(), 14);
    assert_eq!(lines[2].text, "GAME OVER");
    assert_eq!(lines[2].style, PopupStyle::Headline);
    assert_eq!(lines[5].text, "white wins!");
    assert_eq!(lines[6].text, "Checkmate");
    assert_eq!(lines[9].text.chars().count(), 40);
    assert_eq!(lines[11].text, "[N] New Game");
    assert_eq!(lines[12].style, PopupStyle::Quit);
    assert!(GameOverPopup::fits(15));
    assert!(!GameOverPopup::fits(14));
}
