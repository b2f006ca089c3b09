//! The game screen: cursor, selection and promotion choice, driven by keys.

use vstd::prelude::*;
use crate::game::{is_snapshot_of, moves_starting_on, starts_on, GameModel, GameSnapshot};
use crate::position::{is_promotion_role, legal_list_facts, with_promotion};
use crate::moves::{ChessMove, Outcome};
use crate::piece::Role;
use crate::square::Square;

verus! {

/// A key of the keyboard, as far as the game tells keys apart.
#[derive(Clone, Copy, Debug, PartialEq, Eq, Structural)]
pub enum Key {
    Up,
    Down,
    Left,
    Right,
    Enter,
    Esc,
    Char(char),
    Other,
}

/// The square one rank up; the square itself on the last rank.
pub open spec fn spec_square_up(sq: Square) -> Square {
    if sq.spec_index() >= 56 {
        sq
    } else {
        Square::spec_from_index((sq.spec_index() + 8) as u8)
    }
}

/// The square one rank down; the square itself on the first rank.
pub open spec fn spec_square_down(sq: Square) -> Square {
    if sq.spec_index() < 8 {
        sq
    } else {
        Square::spec_from_index((sq.spec_index() - 8) as u8)
    }
}

/// The square one file to the left; the square itself on file a.
pub open spec fn spec_square_left(sq: Square) -> Square {
    if sq.spec_file() == 0 {
        sq
    } else {
        Square::spec_from_index((sq.spec_index() - 1) as u8)
    }
}

/// The square one file to the right; the square itself on file h.
pub open spec fn spec_square_right(sq: Square) -> Square {
    if sq.spec_file() == 7 {
        sq
    } else {
        Square::spec_from_index((sq.spec_index() + 1) as u8)
    }
}

/// The square one rank up; the square itself on the last rank.
pub fn square_up(sq: Square) -> (r: Square)
    ensures
        r == spec_square_up(sq),
        sq.spec_index() < 56 ==> r.spec_index() == sq.spec_index() + 8,
{
    let current = sq.index();
    if current >= 56 {
        sq
    } else {
        Square::from_index(current + 8)
    }
}

/// The square one rank down; the square itself on the first rank.
pub fn square_down(sq: Square) -> (r: Square)
    ensures
        r == spec_square_down(sq),
        sq.spec_index() >= 8 ==> r.spec_index() == sq.spec_index() - 8,
{
    let current = sq.index();
    if current < 8 {
        sq
    } else {
        Square::from_index(current - 8)
    }
}

/// The square one file to the left; the square itself on file a.
pub fn square_left(sq: Square) -> (r: Square)
    ensures
        r == spec_square_left(sq),
        sq.spec_file() != 0 ==> r.spec_index() == sq.spec_index() - 1,
{
    let current = sq.index();
    let file = current % 8;
    if file == 0 {
        sq
    } else {
        Square::from_index(current - 1)
    }
}

/// The square one file to the right; the square itself on file h.
pub fn square_right(sq: Square) -> (r: Square)
    ensures
        r == spec_square_right(sq),
        sq.spec_file() != 7 ==> r.spec_index() == sq.spec_index() + 1,
{
    let current = sq.index();
    let file = current % 8;
    if file == 7 {
        sq
    } else {
        Square::from_index(current + 1)
    }
}

/// The state of the game screen.
pub struct GameScreen {
    snapshot: Option<GameSnapshot>,
    cursor: Square,
    selected: Option<Square>,
    legal_from_selected: Vec<ChessMove>,
    promotion_pending: Option<(Square, Square)>,
    promotion_cursor: usize,
    game_over: Option<Outcome>,
    illegal_flash: u8,
}

/// The abstract state of a `GameScreen`.
pub struct ScreenView {
    /// The last state of the game that arrived, if any.
    pub snapshot: Option<GameSnapshot>,
    /// The square under the cursor.
    pub cursor: Square,
    /// The square of the piece picked up, if any.
    pub selected: Option<Square>,
    /// The legal moves of the picked-up piece.
    pub legal_from_selected: Seq<ChessMove>,
    /// The move (from, to) waiting for the choice of a promotion piece.
    pub promotion_pending: Option<(Square, Square)>,
    /// The promotion piece under the cursor of the dialog: queen, rook, bishop, knight.
    pub promotion_cursor: int,
    /// How the game ended, once it has.
    pub game_over: Option<Outcome>,
    /// Ticks left of the "illegal move" flash.
    pub illegal_flash: int,
}

impl View for GameScreen {
    type V = ScreenView;

    closed spec fn view(&self) -> ScreenView {
        ScreenView {
            snapshot: self.snapshot,
            cursor: self.cursor,
            selected: self.selected,
            legal_from_selected: self.legal_from_selected@,
            promotion_pending: self.promotion_pending,
            promotion_cursor: self.promotion_cursor as int,
            game_over: self.game_over,
            illegal_flash: self.illegal_flash as int,
        }
    }
}

/// The promotion pieces in the order of the dialog.
pub open spec fn promotion_role(i: int) -> Role {
    if i == 0 {
        Role::Queen
    } else if i == 1 {
        Role::Rook
    } else if i == 2 {
        Role::Bishop
    } else {
        Role::Knight
    }
}

/// Whether `i` is the first place in `moves` of a move to `target`.
pub open spec fn is_first_to(moves: Seq<ChessMove>, target: Square, i: int) -> bool {
    &&& 0 <= i < moves.len()
    &&& moves[i].spec_to() == target
    &&& forall|j: int| 0 <= j < i ==> #[trigger] moves[j].spec_to() != target
}

/// The first place in `moves` of a move to `target`, if any.
pub open spec fn first_to(moves: Seq<ChessMove>, target: Square) -> Option<int> {
    if exists|i: int| is_first_to(moves, target, i) {
        Some(choose|i: int| is_first_to(moves, target, i))
    } else {
        None
    }
}

/// The screen with no piece picked up.
pub open spec fn deselect(v: ScreenView) -> ScreenView {
    ScreenView { selected: None, legal_from_selected: Seq::empty(), ..v }
}

/// What Enter does, and the move it hands out, if any:
///  - with a pending promotion, the promotion move with the piece under the
///    dialog's cursor (capturing what stands on the target square);
///  - with a piece picked up, the first of its moves to the cursor square:
///    a promotion opens the dialog, another move is handed out; with no such
///    move the piece is put down;
///  - otherwise, on a piece of the side to move, that piece is picked up
///    with its legal moves.
pub open spec fn enter_result(v: ScreenView) -> (ScreenView, Option<ChessMove>) {
    match v.snapshot {
        None => (v, None),
        Some(snap) => match v.promotion_pending {
            Some((from, to)) => {
                let role = promotion_role(v.promotion_cursor);
                let capture = match snap.board@[to.spec_index()] {
                    Some(p) => Some(p.role),
                    None => None,
                };
                let mv = ChessMove::Normal {
                    role: Role::Pawn,
                    from,
                    to,
                    capture,
                    promotion: Some(role),
                };
                (ScreenView { promotion_pending: None, promotion_cursor: 0, selected: None, ..v }, Some(mv))
            },
            None => match v.selected {
                Some(sel) => match first_to(v.legal_from_selected, v.cursor) {
                    Some(i) => {
                        let mv = v.legal_from_selected[i];
                        if mv.spec_is_promotion() {
                            (ScreenView { promotion_pending: Some((sel, v.cursor)), ..v }, None)
                        } else {
                            (deselect(v), Some(mv))
                        }
                    },
                    None => (deselect(v), None),
                },
                None => match snap.board@[v.cursor.spec_index()] {
                    Some(piece) => if piece.color == snap.turn {
                        (
                            ScreenView {
                                selected: Some(v.cursor),
                                legal_from_selected: snap.legal_moves@.filter(starts_on(v.cursor)),
                                ..v
                            },
                            None,
                        )
                    } else {
                        (v, None)
                    },
                    None => (v, None),
                },
            },
        },
    }
}

/// What a key does, and the move it hands out, if any. Nothing happens once
/// the game is over or before the first state of the game has arrived.
/// Arrows move the cursor (left and right move the dialog's cursor while a
/// promotion is pending, wrapping around); Enter is `enter_result`.
pub open spec fn key_result(v: ScreenView, key: Key) -> (ScreenView, Option<ChessMove>) {
    if v.game_over is Some || v.snapshot is None {
        (v, None)
    } else {
        match key {
            Key::Up => (ScreenView { cursor: spec_square_up(v.cursor), ..v }, None),
            Key::Down => (ScreenView { cursor: spec_square_down(v.cursor), ..v }, None),
            Key::Left => if v.promotion_pending is Some {
                (
                    ScreenView {
                        promotion_cursor: if v.promotion_cursor > 0 {
                            v.promotion_cursor - 1
                        } else {
                            3
                        },
                        ..v
                    },
                    None,
                )
            } else {
                (ScreenView { cursor: spec_square_left(v.cursor), ..v }, None)
            },
            Key::Right => if v.promotion_pending is Some {
                (ScreenView { promotion_cursor: (v.promotion_cursor + 1) % 4, ..v }, None)
            } else {
                (ScreenView { cursor: spec_square_right(v.cursor), ..v }, None)
            },
            Key::Enter => enter_result(v),
            _ => (v, None),
        }
    }
}

/// What Esc does: close the promotion dialog and put the piece down, or else
/// put the piece down.
pub open spec fn esc_result(v: ScreenView) -> ScreenView {
    if v.promotion_pending is Some {
        deselect(ScreenView { promotion_pending: None, promotion_cursor: 0, ..v })
    } else if v.selected is Some {
        deselect(v)
    } else {
        v
    }
}

/// The screen after a new state of the game arrives: it is shown and the
/// "illegal move" flash ends; everything else stays.
pub open spec fn snapshot_result(v: ScreenView, s: GameSnapshot) -> ScreenView {
    ScreenView { snapshot: Some(s), illegal_flash: 0, ..v }
}

/// The screen before the first state of the game arrives.
pub open spec fn new_screen() -> ScreenView {
    ScreenView {
        snapshot: None,
        cursor: Square::E4,
        selected: None,
        legal_from_selected: Seq::empty(),
        promotion_pending: None,
        promotion_cursor: 0,
        game_over: None,
        illegal_flash: 0,
    }
}

/// Moving the cursor up and then down (or down and then up) comes back to
/// the start away from the edge, and keeps the file; left and right likewise
/// keep the rank.
pub proof fn lemma_cursor_moves_invert(sq: Square)
    ensures
        sq.spec_rank() < 7 ==> spec_square_down(spec_square_up(sq)) == sq,
        sq.spec_rank() > 0 ==> spec_square_up(spec_square_down(sq)) == sq,
        sq.spec_file() < 7 ==> spec_square_left(spec_square_right(sq)) == sq,
        sq.spec_file() > 0 ==> spec_square_right(spec_square_left(sq)) == sq,
        spec_square_up(sq).spec_file() == sq.spec_file(),
        spec_square_down(sq).spec_file() == sq.spec_file(),
        spec_square_left(sq).spec_rank() == sq.spec_rank(),
        spec_square_right(sq).spec_rank() == sq.spec_rank(),
{
    sq.lemma_index_bounds();
    let i = sq.spec_index();
    if i < 56 {
        Square::lemma_index_of_from_index((i + 8) as u8);
        Square::lemma_index_of_from_index(i as u8);
        sq.lemma_from_index_of_index();
    }
    if i >= 8 {
        Square::lemma_index_of_from_index((i - 8) as u8);
        sq.lemma_from_index_of_index();
    }
    if i % 8 != 7 {
        Square::lemma_index_of_from_index((i + 1) as u8);
        sq.lemma_from_index_of_index();
    }
    if i % 8 != 0 {
        Square::lemma_index_of_from_index((i - 1) as u8);
        sq.lemma_from_index_of_index();
    }
}

/// Every move listed for the picked-up piece starts on its square.
pub open spec fn selection_consistent(v: ScreenView) -> bool {
    v.selected matches Some(s) ==> forall|i: int|
        0 <= i < v.legal_from_selected.len() ==> #[trigger] v.legal_from_selected[i].spec_from()
            == Some(s)
}

/// Keys keep the moves listed for the picked-up piece starting on its square.
pub proof fn lemma_keys_keep_selection_consistent(v: ScreenView, key: Key)
    requires
        selection_consistent(v),
    ensures
        selection_consistent(key_result(v, key).0),
        selection_consistent(esc_result(v)),
{
    let w = key_result(v, key).0;
    if key == Key::Enter && v.game_over is None && v.snapshot is Some && v.promotion_pending is None
        && v.selected is None {
        let snap = v.snapshot.unwrap();
        if w.selected is Some {
            assert forall|i: int| 0 <= i < w.legal_from_selected.len() implies #[trigger] w.legal_from_selected[i].spec_from() == Some(v.cursor) by {
                let f = snap.legal_moves@.filter(starts_on(v.cursor));
                assert(f.contains(f[i]));
                snap.legal_moves@.filter_lemma(starts_on(v.cursor));
            }
        }
    }
}

/// A move handed out while no promotion is pending is one of the listed
/// legal moves of the picked-up piece, from its square to the cursor.
pub proof fn lemma_handed_out_move_is_listed(v: ScreenView, key: Key)
    requires
        selection_consistent(v),
        v.promotion_pending is None,
        key_result(v, key).1 is Some,
    ensures
        v.legal_from_selected.contains(key_result(v, key).1.unwrap()),
        key_result(v, key).1.unwrap().spec_from() == v.selected,
        key_result(v, key).1.unwrap().spec_to() == v.cursor,
{
    let i = first_to(v.legal_from_selected, v.cursor).unwrap();
    assert(v.legal_from_selected[i] == key_result(v, key).1.unwrap());
}

/// A piece is picked up only if it belongs to the side to move.
pub proof fn lemma_only_own_pieces_are_picked_up(v: ScreenView, key: Key)
    requires
        v.selected is None,
        key_result(v, key).0.selected is Some,
    ensures
        v.snapshot matches Some(snap) && snap.board@[key_result(v, key).0.selected.unwrap().spec_index()] matches Some(
            p,
        ) && p.color == snap.turn,
{
}

/// Once the game is over, no key changes the screen or hands out a move.
pub proof fn lemma_keys_ignored_after_game_over(v: ScreenView, key: Key)
    requires
        v.game_over is Some,
    ensures
        key_result(v, key) == (v, None::<ChessMove>),
{
}

/// Confirming a pending promotion hands out the pawn move to the target
/// square with the piece under the dialog's cursor, and closes the dialog.
pub proof fn lemma_promotion_confirmed(v: ScreenView)
    requires
        v.game_over is None,
        v.snapshot is Some,
        v.promotion_pending is Some,
    ensures
        key_result(v, Key::Enter).1 matches Some(ChessMove::Normal { role, from, to, promotion, .. })
            && role == Role::Pawn && (from, to) == v.promotion_pending.unwrap() && promotion
            == Some(promotion_role(v.promotion_cursor)),
        key_result(v, Key::Enter).0.promotion_pending is None,
        key_result(v, Key::Enter).0.selected is None,
{
}

/// Whether `m` is a promotion from `from` to `to`.
pub open spec fn is_promotion_from_to(m: ChessMove, from: Square, to: Square) -> bool {
    m.spec_is_promotion() && m.spec_from() == Some(from) && m.spec_to() == to
}

/// The picked-up piece's moves are listed legal moves of the shown state of
/// the game, and a pending promotion is that of a listed promotion move.
pub open spec fn selection_listed(v: ScreenView) -> bool {
    v.snapshot matches Some(snap) ==> {
        &&& forall|i: int|
            0 <= i < v.legal_from_selected.len() ==> snap.legal_moves@.contains(
                #[trigger] v.legal_from_selected[i],
            )
        &&& v.promotion_pending matches Some((f, t)) ==> exists|j: int|
            0 <= j < snap.legal_moves@.len() && #[trigger] is_promotion_from_to(
                snap.legal_moves@[j],
                f,
                t,
            )
    }
}

proof fn lemma_filter_within(s: Seq<ChessMove>, pred: spec_fn(ChessMove) -> bool)
    ensures
        forall|i: int| 0 <= i < s.filter(pred).len() ==> s.contains(#[trigger] s.filter(pred)[i]),
    decreases s.len(),
{
    reveal_with_fuel(Seq::<_>::filter, 1);
    if s.len() > 0 {
        let rest = s.drop_last();
        lemma_filter_within(rest, pred);
        assert forall|i: int| 0 <= i < s.filter(pred).len() implies s.contains(#[trigger] s.filter(pred)[i]) by {
            if i < rest.filter(pred).len() {
                let x = rest.filter(pred)[i];
                assert(rest.contains(x));
                let k = choose|k: int| 0 <= k < rest.len() && rest[k] == x;
                assert(s[k] == x);
            } else {
                assert(s[s.len() - 1] == s.filter(pred)[i]);
            }
        }
    }
}

/// Keys and Esc keep the picked-up piece's moves and the pending promotion
/// among the listed legal moves.
pub proof fn lemma_keys_keep_selection_listed(v: ScreenView, key: Key)
    requires
        selection_consistent(v),
        selection_listed(v),
    ensures
        selection_listed(key_result(v, key).0),
        selection_listed(esc_result(v)),
{
    let w = key_result(v, key).0;
    if key == Key::Enter && v.game_over is None && v.snapshot is Some {
        let snap = v.snapshot.unwrap();
        if v.promotion_pending is None {
            match v.selected {
                Some(sel) => {
                    if let Some(i) = first_to(v.legal_from_selected, v.cursor) {
                        let m = v.legal_from_selected[i];
                        if m.spec_is_promotion() {
                            assert(snap.legal_moves@.contains(m));
                            let j = choose|j: int| 0 <= j < snap.legal_moves@.len() && snap.legal_moves@[j] == m;
                            assert(is_promotion_from_to(snap.legal_moves@[j], sel, v.cursor));
                        }
                    }
                },
                None => {
                    if w.selected is Some {
                        assert forall|i: int| 0 <= i < w.legal_from_selected.len() implies snap.legal_moves@.contains(
                            #[trigger] w.legal_from_selected[i],
                        ) by {
                            lemma_filter_within(snap.legal_moves@, starts_on(v.cursor));
                        }
                    }
                },
            }
        }
    }
}

/// Only a listed legal move is ever handed out: a move picked among the
/// piece's moves, or a confirmed promotion, which shakmaty lists with every
/// promotion piece and with the capture of what stands on the target square.
pub proof fn lemma_handed_out_move_is_legal(v: ScreenView, g: GameModel, key: Key)
    requires
        v.snapshot matches Some(s) && is_snapshot_of(s, g),
        selection_listed(v),
        0 <= v.promotion_cursor < 4,
    ensures
        key_result(v, key).1 matches Some(mv) ==> v.snapshot.unwrap().legal_moves@.contains(mv),
{
    let s = v.snapshot.unwrap();
    if key == Key::Enter && v.game_over is None {
        match v.promotion_pending {
            Some((f, t)) => {
                let moves = s.legal_moves@;
                let j = choose|j: int| 0 <= j < moves.len() && #[trigger] is_promotion_from_to(moves[j], f, t);
                let m = moves[j];
                let q = promotion_role(v.promotion_cursor);
                assert(legal_list_facts(g.position, moves));
                assert(m.spec_role() == Role::Pawn);
                assert(is_promotion_role(q));
                assert(moves.contains(with_promotion(m, q)));
                t.lemma_index_bounds();
                t.lemma_from_index_of_index();
                assert(s.board@[t.spec_index()] == crate::position::chess_piece_at(g.position, t));
                assert(crate::position::captures_target(g.position, moves[j]));
                assert(key_result(v, key).1 == Some(with_promotion(m, q)));
            },
            None => {
                if let Some(i) = first_to(v.legal_from_selected, v.cursor) {
                    assert(s.legal_moves@.contains(v.legal_from_selected[i]));
                }
            },
        }
    }
}

/// Enter with nothing picked up picks up a piece of the side to move, of any
/// kind, with the listed legal moves that start on its square, in their
/// order; on an empty square or a piece of the other side it does nothing.
pub proof fn lemma_enter_picks_up_own_piece(v: ScreenView)
    requires
        v.snapshot is Some,
        v.game_over is None,
        v.promotion_pending is None,
        v.selected is None,
    ensures
        ({
            let snap = v.snapshot.unwrap();
            let r = key_result(v, Key::Enter);
            &&& (snap.board@[v.cursor.spec_index()] matches Some(p) && p.color == snap.turn) ==> {
                &&& r.0.selected == Some(v.cursor)
                &&& r.0.legal_from_selected == snap.legal_moves@.filter(
                    |m: ChessMove| m.spec_from() == Some(v.cursor),
                )
                &&& r.1 is None
                &&& r.0.cursor == v.cursor
            }
            &&& !(snap.board@[v.cursor.spec_index()] matches Some(p) && p.color == snap.turn) ==> r == (
                v,
                None::<ChessMove>,
            )
        }),
{
    assert(starts_on(v.cursor) =~= (|m: ChessMove| m.spec_from() == Some(v.cursor)));
}

/// The arrows move the cursor one square: up raises the rank and down lowers
/// it by one, left lowers the file and right raises it by one, each keeping
/// the other coordinate, and staying put at the edge of the board.
pub proof fn lemma_cursor_moves_one_square(sq: Square)
    ensures
        spec_square_up(sq).spec_rank() == if sq.spec_rank() < 7 { sq.spec_rank() + 1 } else { 7 },
        spec_square_down(sq).spec_rank() == if sq.spec_rank() > 0 { sq.spec_rank() - 1 } else { 0 },
        spec_square_right(sq).spec_file() == if sq.spec_file() < 7 { sq.spec_file() + 1 } else { 7 },
        spec_square_left(sq).spec_file() == if sq.spec_file() > 0 { sq.spec_file() - 1 } else { 0 },
        spec_square_up(sq).spec_file() == sq.spec_file(),
        spec_square_down(sq).spec_file() == sq.spec_file(),
        spec_square_left(sq).spec_rank() == sq.spec_rank(),
        spec_square_right(sq).spec_rank() == sq.spec_rank(),
{
    sq.lemma_index_bounds();
    let i = sq.spec_index();
    if i < 56 {
        Square::lemma_index_of_from_index((i + 8) as u8);
    }
    if i >= 8 {
        Square::lemma_index_of_from_index((i - 8) as u8);
    }
    if i % 8 != 7 {
        Square::lemma_index_of_from_index((i + 1) as u8);
    }
    if i % 8 != 0 {
        Square::lemma_index_of_from_index((i - 1) as u8);
    }
}

/// The promotion dialog offers queen, rook, bishop and knight, in this
/// order; left and right move its cursor to the neighbouring piece, wrapping
/// around, and leave the board's cursor.
pub proof fn lemma_promotion_dialog_cycles(v: ScreenView)
    requires
        v.snapshot is Some,
        v.game_over is None,
        v.promotion_pending is Some,
        0 <= v.promotion_cursor < 4,
    ensures
        promotion_role(0) == Role::Queen,
        promotion_role(1) == Role::Rook,
        promotion_role(2) == Role::Bishop,
        promotion_role(3) == Role::Knight,
        key_result(v, Key::Right).0.promotion_cursor == (v.promotion_cursor + 1) % 4,
        key_result(v, Key::Left).0.promotion_cursor == (v.promotion_cursor + 3) % 4,
        key_result(v, Key::Right).0.cursor == v.cursor,
        key_result(v, Key::Left).0.cursor == v.cursor,
        key_result(v, Key::Right).1 is None,
        key_result(v, Key::Left).1 is None,
{
}

impl Default for GameScreen {
    /// The screen before the first state of the game arrives.
    fn default() -> (s: GameScreen)
        ensures
            s@ == new_screen(),
    {
        GameScreen::new()
    }
}

impl GameScreen {
    #[verifier::type_invariant]
    spec fn promotion_cursor_in_dialog(self) -> bool {
        self.promotion_cursor < 4
    }

    /// The screen before the first state of the game arrives, cursor on e4.
    pub fn new() -> (s: GameScreen)
        ensures
            s@ == new_screen(),
    {
        let s = GameScreen {
            snapshot: None,
            cursor: Square::E4,
            selected: None,
            legal_from_selected: Vec::new(),
            promotion_pending: None,
            promotion_cursor: 0,
            game_over: None,
            illegal_flash: 0,
        };
        assert(s@.legal_from_selected =~= Seq::<ChessMove>::empty());
        s
    }

    /// Shows a new state of the game and ends the "illegal move" flash.
    pub fn apply_snapshot(&mut self, snapshot: GameSnapshot)
        ensures
            final(self)@ == snapshot_result(old(self)@, snapshot),
    {
        proof {
            use_type_invariant(&*self);
        }
        self.snapshot = Some(snapshot);
        self.illegal_flash = 0;
    }

    /// Records how the game ended; keys do nothing from then on.
    pub fn set_game_over(&mut self, outcome: Outcome)
        ensures
            final(self)@ == (ScreenView { game_over: Some(outcome), ..old(self)@ }),
    {
        proof {
            use_type_invariant(&*self);
        }
        self.game_over = Some(outcome);
    }

    /// Starts the "illegal move" flash, for ten ticks.
    pub fn flash_illegal(&mut self)
        ensures
            final(self)@ == (ScreenView { illegal_flash: 10, ..old(self)@ }),
    {
        proof {
            use_type_invariant(&*self);
        }
        self.illegal_flash = 10;
    }

    /// Whether Esc has something to cancel (a promotion or a picked-up piece)
    /// rather than quitting.
    pub fn wants_esc(&self) -> (r: bool)
        ensures
            r == (self@.promotion_pending is Some || self@.selected is Some),
    {
        self.promotion_pending.is_some() || self.selected.is_some()
    }

    /// Closes the promotion dialog and puts the piece down, or else puts the
    /// picked-up piece down.
    pub fn handle_esc(&mut self)
        ensures
            final(self)@ == esc_result(old(self)@),
    {
        proof {
            use_type_invariant(&*self);
        }
        if self.promotion_pending.is_some() {
            self.promotion_pending = None;
            self.promotion_cursor = 0;
            self.selected = None;
            self.legal_from_selected = Vec::new();
            assert(self@.legal_from_selected =~= Seq::<ChessMove>::empty());
        } else if self.selected.is_some() {
            self.selected = None;
            self.legal_from_selected = Vec::new();
            assert(self@.legal_from_selected =~= Seq::<ChessMove>::empty());
        }
    }

    /// Handles a key; returns a move when one is complete.
    pub fn handle_key(&mut self, key: Key) -> (r: Option<ChessMove>)
        ensures
            (final(self)@, r) == key_result(old(self)@, key),
    {
        proof {
            use_type_invariant(&*self);
        }
        if self.game_over.is_some() {
            return None;
        }
        if self.snapshot.is_none() {
            return None;
        }
        match key {
            Key::Up => {
                self.cursor = square_up(self.cursor);
                None
            },
            Key::Down => {
                self.cursor = square_down(self.cursor);
                None
            },
            Key::Left => {
                if self.promotion_pending.is_some() {
                    self.promotion_cursor = if self.promotion_cursor > 0 {
                        self.promotion_cursor - 1
                    } else {
                        3
                    };
                } else {
                    self.cursor = square_left(self.cursor);
                }
                None
            },
            Key::Right => {
                if self.promotion_pending.is_some() {
                    self.promotion_cursor = (self.promotion_cursor + 1) % 4;
                } else {
                    self.cursor = square_right(self.cursor);
                }
                None
            },
            Key::Enter => self.handle_enter(),
            _ => None,
        }
    }

    fn handle_enter(&mut self) -> (r: Option<ChessMove>)
        ensures
            (final(self)@, r) == enter_result(old(self)@),
    {
        proof {
            use_type_invariant(&*self);
        }
        let snapshot = match &self.snapshot {
            Some(s) => s,
            None => return None,
        };
        if let Some((from, to)) = self.promotion_pending {
            let roles = [Role::Queen, Role::Rook, Role::Bishop, Role::Knight];
            let promotion_role = roles[self.promotion_cursor];
            let capture = match snapshot.board.piece_at(to) {
                Some(p) => Some(p.role),
                None => None,
            };
            let mv = ChessMove::Normal {
                role: Role::Pawn,
                from,
                to,
                capture,
                promotion: Some(promotion_role),
            };
            self.promotion_pending = None;
            self.promotion_cursor = 0;
            self.selected = None;
            Some(mv)
        } else if let Some(selected) = self.selected {
            let n = self.legal_from_selected.len();
            let mut i: usize = 0;
            while i < n
                invariant
                    n == self.legal_from_selected@.len(),
                    i <= n,
                    forall|j: int| 0 <= j < i ==> #[trigger] self.legal_from_selected@[j].spec_to() != self.cursor,
                ensures
                    i <= n,
                    forall|j: int| 0 <= j < i ==> #[trigger] self.legal_from_selected@[j].spec_to() != self.cursor,
                    i < n ==> self.legal_from_selected@[i as int].spec_to() == self.cursor,
                decreases n - i,
            {
                if self.legal_from_selected[i].to() == self.cursor {
                    break;
                }
                i = i + 1;
            }
            if i < n {
                let mv = self.legal_from_selected[i];
                proof {
                    let v = self@.legal_from_selected;
                    assert(is_first_to(v, self.cursor, i as int));
                    let k = choose|k: int| is_first_to(v, self.cursor, k);
                    assert(k == i) by {
                        if k < i {
                            assert(v[k].spec_to() != self.cursor);
                        } else if k > i {
                            assert(v[i as int].spec_to() != self.cursor);
                        }
                    }
                }
                if mv.is_promotion() {
                    self.promotion_pending = Some((selected, self.cursor));
                    None
                } else {
                    self.selected = None;
                    self.legal_from_selected = Vec::new();
                    assert(self@.legal_from_selected =~= Seq::<ChessMove>::empty());
                    Some(mv)
                }
            } else {
                proof {
                    assert(!exists|k: int| is_first_to(self@.legal_from_selected, self.cursor, k));
                }
                self.selected = None;
                self.legal_from_selected = Vec::new();
                assert(self@.legal_from_selected =~= Seq::<ChessMove>::empty());
                None
            }
        } else {
            match snapshot.board.piece_at(self.cursor) {
                Some(piece) => {
                    if piece.color == snapshot.turn {
                        let cursor = self.cursor;
                        let chosen = moves_starting_on(&snapshot.legal_moves, cursor);
                        self.selected = Some(cursor);
                        self.legal_from_selected = chosen;
                        None
                    } else {
                        None
                    }
                },
                None => None,
            }
        }
    }

    /// The square under the cursor.
    pub fn cursor(&self) -> (r: Square)
        ensures
            r == self@.cursor,
    {
        self.cursor
    }

    /// The square of the picked-up piece, if any.
    pub fn selected(&self) -> (r: Option<Square>)
        ensures
            r == self@.selected,
    {
        self.selected
    }

    /// The legal moves of the picked-up piece.
    pub fn legal_moves_from_selected(&self) -> (r: &[ChessMove])
        ensures
            r@ == self@.legal_from_selected,
    {
        self.legal_from_selected.as_slice()
    }

    /// The last state of the game that arrived, if any.
    pub fn snapshot(&self) -> (r: Option<&GameSnapshot>)
        ensures
            r is None <==> self@.snapshot is None,
            r matches Some(s) ==> self@.snapshot == Some(*s),
    {
        self.snapshot.as_ref()
    }

    /// The move waiting for the choice of a promotion piece, if any.
    pub fn promotion_pending(&self) -> (r: Option<(Square, Square)>)
        ensures
            r == self@.promotion_pending,
    {
        self.promotion_pending
    }

    /// The place of the dialog's cursor: 0 queen, 1 rook, 2 bishop, 3 knight.
    pub fn promotion_cursor(&self) -> (r: usize)
        ensures
            r == self@.promotion_cursor,
            r < 4,
    {
        proof {
            use_type_invariant(self);
        }
        self.promotion_cursor
    }

    /// How the game ended, once it has.
    pub fn game_over(&self) -> (r: Option<&Outcome>)
        ensures
            r is None <==> self@.game_over is None,
            r matches Some(o) ==> self@.game_over == Some(*o),
    {
        self.game_over.as_ref()
    }

    /// Ticks left of the "illegal move" flash.
    pub fn illegal_flash(&self) -> (r: u8)
        ensures
            r == self@.illegal_flash,
    {
        self.illegal_flash
    }

    /// One tick of time: the "illegal move" flash fades by one tick.
    pub fn tick(&mut self)
        ensures
            final(self)@ == (ScreenView {
                illegal_flash: if old(self)@.illegal_flash > 0 {
                    old(self)@.illegal_flash - 1
                } else {
                    0
                },
                ..old(self)@
            }),
    {
        proof {
            use_type_invariant(&*self);
        }
        if self.illegal_flash > 0 {
            self.illegal_flash -= 1;
        }
    }
}

} // verus!

verus! {

/// The screens of the application.
pub enum Screen {
    Game(GameScreen),
}

impl View for Screen {
    type V = ScreenView;

    open spec fn view(&self) -> ScreenView {
        match self {
            Screen::Game(game) => game@,
        }
    }
}

impl Screen {
    /// One tick of time for the active screen.
    pub fn tick(&mut self)
        ensures
            final(self)@ == (ScreenView {
                illegal_flash: if old(self)@.illegal_flash > 0 {
                    old(self)@.illegal_flash - 1
                } else {
                    0
                },
                ..old(self)@
            }),
    {
        match self {
            Screen::Game(game) => game.tick(),
        }
    }

    /// Whether Esc has something to cancel on the active screen.
    pub fn wants_esc(&self) -> (r: bool)
        ensures
            r == (self@.promotion_pending is Some || self@.selected is Some),
    {
        match self {
            Screen::Game(game) => game.wants_esc(),
        }
    }

    /// Lets the active screen handle Esc.
    pub fn handle_esc(&mut self)
        ensures
            final(self)@ == esc_result(old(self)@),
    {
        match self {
            Screen::Game(game) => game.handle_esc(),
        }
    }

    /// Lets the active screen handle a key; returns a complete move, if any.
    pub fn handle_key(&mut self, key: Key) -> (r: Option<ChessMove>)
        ensures
            (final(self)@, r) == key_result(old(self)@, key),
    {
        match self {
            Screen::Game(game) => game.handle_key(key),
        }
    }

    /// Shows a new state of the game on the active screen.
    pub fn apply_snapshot(&mut self, snapshot: GameSnapshot)
        ensures
            final(self)@ == snapshot_result(old(self)@, snapshot),
    {
        match self {
            Screen::Game(game) => game.apply_snapshot(snapshot),
        }
    }

    /// Tells the active screen how the game ended.
    pub fn set_game_over(&mut self, outcome: Outcome)
        ensures
            final(self)@ == (ScreenView { game_over: Some(outcome), ..old(self)@ }),
    {
        match self {
            Screen::Game(game) => game.set_game_over(outcome),
        }
    }

    /// Starts the "illegal move" flash on the active screen.
    pub fn flash_illegal(&mut self)
        ensures
            final(self)@ == (ScreenView { illegal_flash: 10, ..old(self)@ }),
    {
        match self {
            Screen::Game(game) => game.flash_illegal(),
        }
    }
}

} // verus!
