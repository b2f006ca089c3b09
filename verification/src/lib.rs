//! Hotseat chess: game state over the rules of `shakmaty`, the board
//! cursor and selection logic of the terminal interface, and the decisions
//! of the game coordinator.

pub mod board;
pub mod board_view;
pub mod coordinator;
pub mod event;
pub mod game;
pub mod gameover_view;
pub mod geometry;
pub mod info_view;
pub mod moves;
pub mod piece;
pub mod square;
pub mod player;
pub mod position;
pub mod promotion_view;
pub mod router;
pub mod screen;
