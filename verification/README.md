# borrow_checkmate

A terminal chess game for two players at one keyboard, built on `shakmaty`
(the rules of chess) and `ratatui` (the terminal interface).

- `src/` is the library, verified with Verus: the game with undo and capture
  lists (`game.rs`), the calls into shakmaty (`position.rs`), the game
  screen's keys, selection and promotion dialog (`screen.rs`), the routing of
  keys and events (`router.rs`), the coordinator's decisions
  (`coordinator.rs`), and what each panel shows and where (`*_view.rs`,
  `geometry.rs`).
- `app/` is the program around it: the terminal, the event loop, the
  coordinator's task and the drawing.
- `tests/` runs the library on concrete games and screens.

Keys: arrows move the cursor, Enter picks up a piece or confirms a move, Esc
cancels, `u` takes back the last move, `n` starts a new game, `q` quits.
