//! A chess game with undo, over the rules computed by shakmaty.

use vstd::prelude::*;
use crate::board::Board;
use crate::moves::{ChessMove, Outcome};
use crate::piece::{Color, Piece, Role};
use crate::position::{
    chess_is_check, chess_legal_moves, chess_piece_at, clone_position, game_outcome, is_check,
    legal_list_facts, legal_moves, moved_by_side_to_move, outcome, piece_at, play, side_to_move, start_position, turn,
    Position,
};
use crate::square::Square;

verus! {

/// What the interface is told after each change of the game.
#[derive(Clone, Debug)]
pub struct GameSnapshot {
    pub board: Board,
    pub turn: Color,
    pub is_check: bool,
    pub legal_moves: Vec<ChessMove>,
    pub last_move: Option<ChessMove>,
    pub outcome: Option<Outcome>,
    pub move_history: Vec<ChessMove>,
    /// The pieces White has captured, in the order of capture.
    pub captured_white: Vec<Role>,
    /// The pieces Black has captured, in the order of capture.
    pub captured_black: Vec<Role>,
}

/// The error of `Game::make_move`: the move is not legal in the position.
#[derive(Clone, Copy, Debug, PartialEq, Eq, Structural)]
pub struct IllegalMove {
    /// The move that was not played.
    pub m: ChessMove,
}

/// A chess game: the current position, the positions before each move
/// (for undo), the moves played, and the pieces captured by each side.
pub struct Game {
    pos: Position,
    history: Vec<Position>,
    move_history: Vec<ChessMove>,
    captured_white: Vec<Role>,
    captured_black: Vec<Role>,
}

/// The abstract state of a `Game`; positions are the move sequences that reach them.
pub struct GameModel {
    pub position: Seq<ChessMove>,
    pub history: Seq<Seq<ChessMove>>,
    pub moves: Seq<ChessMove>,
    pub captured_white: Seq<Role>,
    pub captured_black: Seq<Role>,
}

impl View for Game {
    type V = GameModel;

    closed spec fn view(&self) -> GameModel {
        GameModel {
            position: self.pos@,
            history: self.history@.map_values(|p: Position| p@),
            moves: self.move_history@,
            captured_white: self.captured_white@,
            captured_black: self.captured_black@,
        }
    }
}

/// The capture lists after `m` is played by `mover`: the captured piece goes
/// to the list of the side that captured it.
pub open spec fn record_capture(
    white: Seq<Role>,
    black: Seq<Role>,
    mover: Color,
    m: ChessMove,
) -> (Seq<Role>, Seq<Role>) {
    match m.spec_capture() {
        Some(r) => if mover == Color::White {
            (white.push(r), black)
        } else {
            (white, black.push(r))
        },
        None => (white, black),
    }
}

/// Replays `moves` from the initial position, as undo does: each move is
/// credited with its capture by the side to move, and played if legal
/// (skipped otherwise). Gives the moves played and the two capture lists.
pub open spec fn replay(moves: Seq<ChessMove>) -> (Seq<ChessMove>, Seq<Role>, Seq<Role>)
    decreases moves.len(),
{
    if moves.len() == 0 {
        (Seq::empty(), Seq::empty(), Seq::empty())
    } else {
        let prev = replay(moves.drop_last());
        let m = moves.last();
        let caps = record_capture(prev.1, prev.2, side_to_move(prev.0), m);
        let played = if chess_legal_moves(prev.0).contains(m) {
            prev.0.push(m)
        } else {
            prev.0
        };
        (played, caps.0, caps.1)
    }
}

/// The game after `make_move(m)`, and whether the move was played.
///
/// The position before the move is saved and its capture is recorded before
/// the move is tried, so a refused move leaves both behind; the position and
/// the list of moves change only when the move is legal.
pub open spec fn make_move_result(g: GameModel, m: ChessMove) -> (GameModel, bool) {
    let legal = chess_legal_moves(g.position).contains(m);
    let caps = record_capture(g.captured_white, g.captured_black, side_to_move(g.position), m);
    (
        GameModel {
            position: if legal { g.position.push(m) } else { g.position },
            history: g.history.push(g.position),
            moves: if legal { g.moves.push(m) } else { g.moves },
            captured_white: caps.0,
            captured_black: caps.1,
        },
        legal,
    )
}

/// The game after `undo()`, and whether there was a position to go back to.
/// The last saved position comes back and the last move is dropped (after a
/// refused move the saved position is the current one, so the board stays
/// and the last played move leaves the list). The capture lists are
/// recomputed by replaying the remaining moves.
pub open spec fn undo_result(g: GameModel) -> (GameModel, bool) {
    if g.history.len() == 0 {
        (g, false)
    } else {
        let moves = if g.moves.len() > 0 { g.moves.drop_last() } else { g.moves };
        let r = replay(moves);
        (
            GameModel {
                position: g.history.last(),
                history: g.history.drop_last(),
                moves,
                captured_white: r.1,
                captured_black: r.2,
            },
            true,
        )
    }
}

/// A game in which every move was legal, the position is the one the moves
/// reach, a saved position precedes each move, and the capture lists are
/// those of the moves.
pub open spec fn consistent(g: GameModel) -> bool {
    &&& g.position == g.moves
    &&& replay(g.moves) == (g.moves, g.captured_white, g.captured_black)
    &&& g.history.len() == g.moves.len()
    &&& forall|i: int| 0 <= i < g.history.len() ==> #[trigger] g.history[i] == g.moves.take(i)
}

/// The pieces on the 64 squares after `played`.
pub open spec fn position_board(played: Seq<ChessMove>) -> Seq<Option<Piece>> {
    Seq::new(64, |i: int| chess_piece_at(played, Square::spec_from_index(i as u8)))
}

/// Whether a move starts on `sq`.
pub open spec fn starts_on(sq: Square) -> spec_fn(ChessMove) -> bool {
    |m: ChessMove| m.spec_from() == Some(sq)
}

/// The legal moves from the square `sq` after `played`, in shakmaty's order.
pub open spec fn legal_moves_from_square(played: Seq<ChessMove>, sq: Square) -> Seq<ChessMove> {
    chess_legal_moves(played).filter(starts_on(sq))
}

/// The snapshot of a game.
pub open spec fn is_snapshot_of(s: GameSnapshot, g: GameModel) -> bool {
    &&& s.board@ == position_board(g.position)
    &&& s.turn == side_to_move(g.position)
    &&& s.is_check == chess_is_check(g.position)
    &&& s.legal_moves@ == chess_legal_moves(g.position)
    &&& s.last_move == (if g.moves.len() > 0 { Some(g.moves.last()) } else { None })
    &&& s.outcome == game_outcome(g.position)
    &&& legal_list_facts(g.position, s.legal_moves@)
    &&& s.move_history@ == g.moves
    &&& s.captured_white@ == g.captured_white
    &&& s.captured_black@ == g.captured_black
}

/// The game before any move.
pub open spec fn new_game() -> GameModel {
    GameModel {
        position: Seq::empty(),
        history: Seq::empty(),
        moves: Seq::empty(),
        captured_white: Seq::empty(),
        captured_black: Seq::empty(),
    }
}

proof fn lemma_replay_len(moves: Seq<ChessMove>)
    ensures
        replay(moves).0.len() <= moves.len(),
    decreases moves.len(),
{
    if moves.len() > 0 {
        lemma_replay_len(moves.drop_last());
    }
}

/// A new game is consistent: no move, no saved position, no capture.
pub proof fn lemma_new_game_consistent()
    ensures
        consistent(new_game()),
{
    assert(replay(Seq::<ChessMove>::empty()) == (
        Seq::<ChessMove>::empty(),
        Seq::<Role>::empty(),
        Seq::<Role>::empty(),
    ));
}

/// Playing a legal move keeps a consistent game consistent.
pub proof fn lemma_make_move_keeps_consistent(g: GameModel, m: ChessMove)
    requires
        consistent(g),
        make_move_result(g, m).1,
    ensures
        consistent(make_move_result(g, m).0),
{
    let h = make_move_result(g, m).0;
    assert(h.moves.drop_last() =~= g.moves);
    assert(replay(h.moves) == (h.moves, h.captured_white, h.captured_black));
    assert forall|i: int| 0 <= i < h.history.len() implies #[trigger] h.history[i] == h.moves.take(i) by {
        if i < g.history.len() {
            assert(h.history[i] == g.history[i]);
            assert(g.moves.take(i) =~= h.moves.take(i));
        } else {
            assert(h.moves.take(i) =~= g.moves);
        }
    }
}

/// Taking back a move that was just played gives back the game as it was
/// before the move.
pub proof fn lemma_undo_reverts_make_move(g: GameModel, m: ChessMove)
    requires
        consistent(g),
        make_move_result(g, m).1,
    ensures
        undo_result(make_move_result(g, m).0) == (g, true),
{
    let h = make_move_result(g, m).0;
    let u = undo_result(h).0;
    assert(h.moves.drop_last() =~= g.moves);
    assert(h.history.drop_last() =~= g.history);
    assert(u.position == g.position);
    assert(u.history == g.history);
    assert(u.moves == g.moves);
    assert(u.captured_white == g.captured_white);
    assert(u.captured_black == g.captured_black);
}

/// Undo keeps a consistent game consistent.
pub proof fn lemma_undo_keeps_consistent(g: GameModel)
    requires
        consistent(g),
    ensures
        consistent(undo_result(g).0),
{
    if g.history.len() > 0 {
        let u = undo_result(g).0;
        let n = g.moves.len();
        let prev = replay(g.moves.drop_last());
        lemma_replay_len(g.moves.drop_last());
        assert(chess_legal_moves(prev.0).contains(g.moves.last()));
        assert(prev.0 =~= g.moves.drop_last()) by {
            assert(prev.0.push(g.moves.last()) == g.moves);
            assert forall|i: int| 0 <= i < prev.0.len() implies prev.0[i] == g.moves.drop_last()[i] by {
                assert(prev.0.push(g.moves.last())[i] == g.moves[i]);
            }
        }
        assert(g.history[n - 1] == g.moves.take(n - 1));
        assert(g.moves.take(n - 1) =~= g.moves.drop_last());
        assert forall|i: int| 0 <= i < u.history.len() implies #[trigger] u.history[i] == u.moves.take(i) by {
            assert(g.history[i] == g.moves.take(i));
            assert(g.moves.take(i) =~= u.moves.take(i));
        }
    }
}

/// A move that is not legal is reported as not played and changes neither
/// the position nor the list of moves; the position before it is still
/// saved, and a capture it names is still recorded.
pub proof fn lemma_illegal_move_keeps_position(g: GameModel, m: ChessMove)
    requires
        !chess_legal_moves(g.position).contains(m),
    ensures
        !make_move_result(g, m).1,
        make_move_result(g, m).0.position == g.position,
        make_move_result(g, m).0.moves == g.moves,
        make_move_result(g, m).0.history == g.history.push(g.position),
        (make_move_result(g, m).0.captured_white, make_move_result(g, m).0.captured_black)
            == record_capture(g.captured_white, g.captured_black, side_to_move(g.position), m),
{
}

/// A snapshot lists only moves of the side to move, each starting from a
/// piece of that side of the role it names; with no legal move listed the
/// game has an outcome; and the last move shown is the last of the history.
pub proof fn lemma_snapshot_lists_moves_of_side_to_move(g: GameModel, s: GameSnapshot)
    requires
        is_snapshot_of(s, g),
    ensures
        forall|i: int|
            0 <= i < s.legal_moves@.len() ==> ((#[trigger] s.legal_moves@[i]).spec_from() matches Some(f)
                && s.board@[f.spec_index()] == Some(
                Piece { color: s.turn, role: s.legal_moves@[i].spec_role() },
            )),
        s.legal_moves@.len() == 0 ==> s.outcome is Some,
        s.last_move == (if s.move_history@.len() > 0 {
            Some(s.move_history@.last())
        } else {
            None
        }),
{
    assert forall|i: int| 0 <= i < s.legal_moves@.len() implies ((#[trigger] s.legal_moves@[i]).spec_from() matches Some(f)
        && s.board@[f.spec_index()] == Some(Piece { color: s.turn, role: s.legal_moves@[i].spec_role() })) by {
        assert(moved_by_side_to_move(g.position, s.legal_moves@[i]));
        let f = s.legal_moves@[i].spec_from().unwrap();
        f.lemma_index_bounds();
        f.lemma_from_index_of_index();
    }
}

/// Playing a move records the piece it captures, whatever its kind, at the
/// end of the list of the side that moved; the other side's list stays. A
/// move that captures nothing leaves both lists.
pub proof fn lemma_make_move_records_capture(g: GameModel, m: ChessMove)
    ensures
        ({
            let h = make_move_result(g, m).0;
            let mover = side_to_move(g.position);
            &&& m.spec_capture() matches Some(r) ==> {
                &&& mover == Color::White ==> h.captured_white == g.captured_white.push(r)
                    && h.captured_black == g.captured_black
                &&& mover == Color::Black ==> h.captured_black == g.captured_black.push(r)
                    && h.captured_white == g.captured_white
            }
            &&& m.spec_capture() is None ==> h.captured_white == g.captured_white && h.captured_black
                == g.captured_black
        }),
{
}

/// Replaying one more move, as undo does to recompute the capture lists,
/// records its capture, whatever its kind, at the end of the list of the side
/// to move, leaves the other list, and plays the move exactly when it is legal.
pub proof fn lemma_replay_records_capture(moves: Seq<ChessMove>, m: ChessMove)
    ensures
        ({
            let before = replay(moves);
            let after = replay(moves.push(m));
            let mover = side_to_move(before.0);
            &&& m.spec_capture() matches Some(r) ==> {
                &&& mover == Color::White ==> after.1 == before.1.push(r) && after.2 == before.2
                &&& mover == Color::Black ==> after.2 == before.2.push(r) && after.1 == before.1
            }
            &&& m.spec_capture() is None ==> after.1 == before.1 && after.2 == before.2
            &&& after.0 == (if chess_legal_moves(before.0).contains(m) {
                before.0.push(m)
            } else {
                before.0
            })
        }),
{
    assert(moves.push(m).drop_last() =~= moves);
}

/// A move is played exactly when it is among the legal moves of the
/// snapshot of the game.
pub proof fn lemma_played_iff_listed(g: GameModel, s: GameSnapshot, m: ChessMove)
    requires
        is_snapshot_of(s, g),
    ensures
        make_move_result(g, m).1 == s.legal_moves@.contains(m),
{
}

fn copy_all<T: Copy>(v: &Vec<T>) -> (r: Vec<T>)
    ensures
        r@ == v@,
{
    let mut r: Vec<T> = Vec::new();
    for i in 0..v.len()
        invariant
            r@ == v@.take(i as int),
    {
        r.push(v[i]);
        assert(v@.take(i + 1) =~= v@.take(i as int).push(v@[i as int]));
    }
    assert(v@.take(v.len() as int) =~= v@);
    r
}

/// The moves of `all` that start on `sq`, in their order.
pub(crate) fn moves_starting_on(all: &Vec<ChessMove>, sq: Square) -> (r: Vec<ChessMove>)
    ensures
        r@ == all@.filter(starts_on(sq)),
{
    let mut r: Vec<ChessMove> = Vec::new();
    for i in 0..all.len()
        invariant
            r@ == all@.take(i as int).filter(starts_on(sq)),
    {
        let m = all[i];
        proof {
            reveal_with_fuel(Seq::<_>::filter, 1);
        }
        assert(all@.take(i + 1).drop_last() =~= all@.take(i as int));
        assert(all@.take(i + 1).last() == m);
        let keep_it = match m.from() {
            Some(f) => f == sq,
            None => false,
        };
        assert(keep_it == starts_on(sq)(m));
        if keep_it {
            r.push(m);
        }
        assert(r@ == all@.take(i + 1).filter(starts_on(sq)));
    }
    assert(all@.take(all.len() as int) =~= all@);
    r
}

impl Default for Game {
    /// A game from the initial position.
    fn default() -> (g: Game)
        ensures
            g@ == new_game(),
    {
        Game::new()
    }
}

impl Game {
    /// A game from the initial position.
    pub fn new() -> (g: Game)
        ensures
            g@ == new_game(),
    {
        let g = Game {
            pos: start_position(),
            history: Vec::new(),
            move_history: Vec::new(),
            captured_white: Vec::new(),
            captured_black: Vec::new(),
        };
        assert(g@.history =~= Seq::<Seq<ChessMove>>::empty());
        g
    }

    /// Everything the interface shows of the game.
    pub fn snapshot(&self) -> (s: GameSnapshot)
        ensures
            is_snapshot_of(s, self@),
    {
        let mut board = Board::empty();
        let mut i: u8 = 0;
        while i < 64
            invariant
                i <= 64,
                board@ == Seq::new(
                    64,
                    |j: int|
                        if j < i {
                            chess_piece_at(self.pos@, Square::spec_from_index(j as u8))
                        } else {
                            None
                        },
                ),
            decreases 64 - i,
        {
            let sq = Square::from_index(i);
            let p = piece_at(&self.pos, sq);
            board.set_piece_at(sq, p);
            i = i + 1;
        }
        assert(board@ =~= position_board(self@.position));
        let last_move = if self.move_history.len() > 0 {
            Some(self.move_history[self.move_history.len() - 1])
        } else {
            None
        };
        GameSnapshot {
            board,
            turn: turn(&self.pos),
            is_check: is_check(&self.pos),
            legal_moves: legal_moves(&self.pos),
            last_move,
            outcome: self.outcome(),
            move_history: copy_all(&self.move_history),
            captured_white: copy_all(&self.captured_white),
            captured_black: copy_all(&self.captured_black),
        }
    }

    /// The legal moves that start on `sq`, in shakmaty's order.
    pub fn legal_moves_from(&self, sq: Square) -> (r: Vec<ChessMove>)
        ensures
            r@ == legal_moves_from_square(self@.position, sq),
    {
        let all = legal_moves(&self.pos);
        moves_starting_on(&all, sq)
    }

    /// Plays `mv`. The position before it is saved for undo and its capture is
    /// recorded first; if shakmaty refuses the move, the position and the
    /// list of moves stay as they were and the error names the move.
    pub fn make_move(&mut self, mv: ChessMove) -> (r: Result<(), IllegalMove>)
        ensures
            (final(self)@, r is Ok) == make_move_result(old(self)@, mv),
            r is Err ==> r == Err::<(), IllegalMove>(IllegalMove { m: mv }),
    {
        let ghost before = self@;
        self.history.push(clone_position(&self.pos));
        if let Some(capture) = mv.capture() {
            let capture_color = turn(&self.pos);
            if capture_color == Color::White {
                self.captured_white.push(capture);
            } else {
                self.captured_black.push(capture);
            }
        }
        match play(&self.pos, mv) {
            Ok(next) => {
                self.pos = next;
                self.move_history.push(mv);
                assert(self@.history =~= before.history.push(before.position));
                Ok(())
            },
            Err(_) => {
                assert(self@.history =~= before.history.push(before.position));
                Err(IllegalMove { m: mv })
            },
        }
    }

    /// Takes back the last move: the saved position comes back, the last
    /// move is dropped, and the capture lists are recomputed by replaying
    /// the remaining moves. Returns `false`, changing nothing, when there
    /// is no saved position.
    pub fn undo(&mut self) -> (r: bool)
        ensures
            (final(self)@, r) == undo_result(old(self)@),
    {
        let ghost before = self@;
        let ghost saved = self.history@;
        match self.history.pop() {
            Some(prev) => {
                assert(self.history@ == saved.drop_last());
                assert(prev == saved.last());
                assert(prev@ == before.history.last());
                assert(self.history@.map_values(|p: Position| p@) =~= before.history.drop_last());
                self.pos = prev;
                self.move_history.pop();
                let ghost moves = self.move_history@;
                assert(moves == undo_result(before).0.moves);
                self.captured_white.clear();
                self.captured_black.clear();
                let mut temp = start_position();
                let n = self.move_history.len();
                let ghost pos_v = self.pos@;
                let ghost hist_v = self@.history;
                for i in 0..n
                    invariant
                        n == self.move_history.len(),
                        self.pos@ == pos_v,
                        self@.history == hist_v,
                        self.move_history@ == moves,
                        (temp@, self.captured_white@, self.captured_black@) == replay(moves.take(i as int)),
                {
                    let mv = self.move_history[i];
                    assert(moves.take(i + 1).drop_last() =~= moves.take(i as int));
                    if let Some(capture) = mv.capture() {
                        let capture_color = turn(&temp);
                        if capture_color == Color::White {
                            self.captured_white.push(capture);
                        } else {
                            self.captured_black.push(capture);
                        }
                    }
                    match play(&temp, mv) {
                        Ok(next) => {
                            temp = next;
                        },
                        Err(_) => {},
                    }
                }
                assert(moves.take(n as int) =~= moves);
                let ghost after = undo_result(before).0;
                assert(self@.position == after.position);
                assert(self@.history == after.history);
                assert(self@.moves == after.moves);
                assert(self@.captured_white == after.captured_white);
                assert(self@.captured_black == after.captured_black);
                true
            },
            None => false,
        }
    }

    /// How the game ended, `None` while it goes on: checkmate, stalemate or
    /// insufficient material.
    pub fn outcome(&self) -> (r: Option<Outcome>)
        ensures
            r == game_outcome(self@.position),
    {
        outcome(&self.pos)
    }
}

} // verus!
