//! The rules of chess, as computed by `shakmaty`.
//!
//! Every item here that is marked `external_body` is trusted: its contract
//! restates what shakmaty's source shows of the function it calls.

use vstd::prelude::*;
use crate::moves::{ChessMove, Outcome};
use crate::piece::{Color, Piece, Role};
use crate::square::Square;

verus! {

#[verifier::external_type_specification]
#[verifier::external_body]
pub struct ExChess(shakmaty::Chess);

#[verifier::external_type_specification]
#[verifier::external_body]
#[verifier::reject_recursive_types(P)]
pub struct ExPlayError<P>(shakmaty::PlayError<P>);

#[verifier::external_type_specification]
#[verifier::external_body]
pub struct ExMove(shakmaty::Move);

/// A chess position reached from the initial position by legal moves.
///
/// shakmaty holds the position; its view is the sequence of moves played
/// from the initial position to reach it. Positions are only made by
/// `start_position` and `play`, so the view determines the position.
pub struct Position {
    chess: shakmaty::Chess,
    played: Ghost<Seq<ChessMove>>,
}

impl View for Position {
    type V = Seq<ChessMove>;

    closed spec fn view(&self) -> Seq<ChessMove> {
        self.played@
    }
}

/// The side to move after the given moves from the initial position:
/// White moves first and the sides alternate.
pub open spec fn side_to_move(played: Seq<ChessMove>) -> Color {
    if played.len() % 2 == 0 {
        Color::White
    } else {
        Color::Black
    }
}

/// The legal moves, in shakmaty's order, after `played` from the initial position.
pub uninterp spec fn chess_legal_moves(played: Seq<ChessMove>) -> Seq<ChessMove>;

/// Whether the side to move is in check after `played`.
pub uninterp spec fn chess_is_check(played: Seq<ChessMove>) -> bool;

/// Whether neither side has enough material left to mate after `played`.
pub uninterp spec fn chess_is_insufficient_material(played: Seq<ChessMove>) -> bool;

/// The outcome of the game after `played`, `None` while it goes on: with no
/// legal move the side in check loses (checkmate) and otherwise the game is
/// drawn (stalemate); with legal moves the game is drawn when neither side
/// can mate (insufficient material), and goes on otherwise.
pub open spec fn game_outcome(played: Seq<ChessMove>) -> Option<Outcome> {
    if chess_legal_moves(played).len() == 0 {
        if chess_is_check(played) {
            Some(Outcome::Decisive { winner: side_to_move(played).spec_other() })
        } else {
            Some(Outcome::Draw)
        }
    } else if chess_is_insufficient_material(played) {
        Some(Outcome::Draw)
    } else {
        None
    }
}

/// The same promotion move with another promotion piece; any other move
/// unchanged.
pub open spec fn with_promotion(m: ChessMove, q: Role) -> ChessMove {
    match m {
        ChessMove::Normal { role, from, capture, to, promotion: Some(_) } => ChessMove::Normal {
            role,
            from,
            capture,
            to,
            promotion: Some(q),
        },
        _ => m,
    }
}

/// A piece a pawn can be promoted to: queen, rook, bishop or knight.
pub open spec fn is_promotion_role(q: Role) -> bool {
    q == Role::Queen || q == Role::Rook || q == Role::Bishop || q == Role::Knight
}

/// Whether an ordinary move captures exactly the piece on its target square
/// after `played` (other kinds of moves are not concerned).
pub open spec fn captures_target(played: Seq<ChessMove>, m: ChessMove) -> bool {
    match m {
        ChessMove::Normal { to, capture, .. } => capture == role_on(played, to),
        _ => true,
    }
}

/// Whether `m` moves a piece of the side to move after `played`: its start
/// square holds a piece of that side, of the role the move names.
pub open spec fn moved_by_side_to_move(played: Seq<ChessMove>, m: ChessMove) -> bool {
    m.spec_from() matches Some(f) && chess_piece_at(played, f) == Some(
        Piece { color: side_to_move(played), role: m.spec_role() },
    )
}

/// Facts of a list of legal moves after `played`, as shakmaty makes it: every
/// move moves a piece of the side to move, every ordinary move captures
/// exactly the piece on its target square, and every promotion is a pawn
/// move listed with each of the four promotion pieces.
pub open spec fn legal_list_facts(played: Seq<ChessMove>, moves: Seq<ChessMove>) -> bool {
    &&& forall|i: int| 0 <= i < moves.len() ==> moved_by_side_to_move(played, #[trigger] moves[i])
    &&& forall|i: int| 0 <= i < moves.len() ==> captures_target(played, #[trigger] moves[i])
    &&& forall|i: int|
        0 <= i < moves.len() && (#[trigger] moves[i]).spec_is_promotion() ==> moves[i].spec_role()
            == Role::Pawn
    &&& forall|i: int, q: Role|
        0 <= i < moves.len() && moves[i].spec_is_promotion() && is_promotion_role(q) ==> moves.contains(
            #[trigger] with_promotion(moves[i], q),
        )
}

/// The role of the piece on `sq` after `played`, if any.
pub open spec fn role_on(played: Seq<ChessMove>, sq: Square) -> Option<Role> {
    match chess_piece_at(played, sq) {
        Some(p) => Some(p.role),
        None => None,
    }
}

/// The piece on the square after `played`, if any.
pub uninterp spec fn chess_piece_at(played: Seq<ChessMove>, sq: Square) -> Option<Piece>;

/// Converts a move to shakmaty's `Move`, variant for variant and field for
/// field; a square goes by its number (`Square::new` panics only from 64 on)
/// and a role by its place in `Role::ALL`.
#[verifier::external_body]
fn move_to_ext(m: ChessMove) -> shakmaty::Move {
    let sq = |s: Square| shakmaty::Square::new(s.index() as u32);
    let role_to_ext = |r: Role| shakmaty::Role::ALL[r.index()];
    match m {
        ChessMove::Normal { role, from, capture, to, promotion } => shakmaty::Move::Normal {
            role: role_to_ext(role),
            from: sq(from),
            capture: capture.map(role_to_ext),
            to: sq(to),
            promotion: promotion.map(role_to_ext),
        },
        ChessMove::EnPassant { from, to } => shakmaty::Move::EnPassant { from: sq(from), to: sq(to) },
        ChessMove::Castle { king, rook } => shakmaty::Move::Castle { king: sq(king), rook: sq(rook) },
        ChessMove::Put { role, to } => shakmaty::Move::Put { role: role_to_ext(role), to: sq(to) },
    }
}

/// Converts a move from shakmaty's `Move`, variant for variant and field for
/// field; a square goes by its number and a role by shakmaty's number for it.
#[verifier::external_body]
fn move_from_ext(m: shakmaty::Move) -> ChessMove {
    let sq = |s: shakmaty::Square| Square::from_index(s as u8);
    let role = |r: shakmaty::Role| Role::from_number(r as u8);
    match m {
        shakmaty::Move::Normal { role: r, from, capture, to, promotion } => ChessMove::Normal {
            role: role(r),
            from: sq(from),
            capture: capture.map(role),
            to: sq(to),
            promotion: promotion.map(role),
        },
        shakmaty::Move::EnPassant { from, to } => ChessMove::EnPassant { from: sq(from), to: sq(to) },
        shakmaty::Move::Castle { king, rook } => ChessMove::Castle { king: sq(king), rook: sq(rook) },
        shakmaty::Move::Put { role: r, to } => ChessMove::Put { role: role(r), to: sq(to) },
    }
}

/// Calls `shakmaty::Chess::default`, the initial position of a chess game:
/// no move has been played.
#[verifier::external_body]
pub(crate) fn start_position() -> (r: Position)
    ensures
        r@ == Seq::<ChessMove>::empty(),
{
    Position { chess: shakmaty::Chess::default(), played: Ghost(Seq::empty()) }
}

/// Calls `Clone::clone` of `shakmaty::Chess`: the same position.
#[verifier::external_body]
pub(crate) fn clone_position(p: &Position) -> (r: Position)
    ensures
        r@ == p@,
{
    Position { chess: p.chess.clone(), played: Ghost(p.played@) }
}

/// Calls `Position::turn` of shakmaty: the side to move. shakmaty's initial
/// position has White to move and every move played hands the turn to the
/// other side (`do_move` ends with `*turn = !color`).
#[verifier::external_body]
pub(crate) fn turn(p: &Position) -> (r: Color)
    ensures
        r == side_to_move(p@),
{
    match shakmaty::Position::turn(&p.chess) {
        shakmaty::Color::Black => Color::Black,
        shakmaty::Color::White => Color::White,
    }
}

/// Calls `Position::is_check` of shakmaty: whether the side to move is in check.
#[verifier::external_body]
pub(crate) fn is_check(p: &Position) -> (r: bool)
    ensures
        r == chess_is_check(p@),
{
    shakmaty::Position::is_check(&p.chess)
}

/// Calls `Position::legal_moves` of shakmaty: all legal moves, in its order.
/// Its source also shows three facts of the list for standard chess: every
/// move starts from a piece of the side to move, of the role it names (the
/// generators walk `our(role)`, the king of `turn()`, and our pawns for en
/// passant; castling starts from our king); every ordinary move captures what
/// stands on its target square (`capture: board().role_at(to)`); and a
/// promotion is a pawn move listed once with each of queen, rook, bishop and
/// knight (`push_promotions`; the pin filter `is_safe` reads only the squares
/// of a move).
#[verifier::external_body]
pub(crate) fn legal_moves(p: &Position) -> (r: Vec<ChessMove>)
    ensures
        r@ == chess_legal_moves(p@),
        legal_list_facts(p@, r@),
{
    shakmaty::Position::legal_moves(&p.chess).iter().map(|m| move_from_ext(*m)).collect()
}

/// Calls `Board::piece_at` of shakmaty on the board of the position: the
/// piece on the square (given by its number), if any.
#[verifier::external_body]
pub(crate) fn piece_at(p: &Position, sq: Square) -> (r: Option<Piece>)
    ensures
        r == chess_piece_at(p@, sq),
{
    let board = shakmaty::Position::board(&p.chess);
    board.piece_at(shakmaty::Square::new(sq.index() as u32)).map(|pc| Piece {
        color: if pc.color == shakmaty::Color::White { Color::White } else { Color::Black },
        role: Role::from_number(pc.role as u8),
    })
}

/// Calls `Position::play` of shakmaty on a copy of the position. shakmaty
/// plays the move if it is legal (`is_legal`: among the legal moves) and
/// returns the error otherwise; the played position extends the sequence.
#[verifier::external_body]
pub(crate) fn play(p: &Position, m: ChessMove) -> (r: Result<Position, shakmaty::PlayError<shakmaty::Chess>>)
    ensures
        r is Ok <==> chess_legal_moves(p@).contains(m),
        r matches Ok(q) ==> q@ == p@.push(m),
{
    match shakmaty::Position::play(p.chess.clone(), move_to_ext(m)) {
        Ok(chess) => Ok(Position { chess, played: Ghost(p.played@.push(m)) }),
        Err(e) => Err(e),
    }
}

/// Calls `Position::outcome` of shakmaty; `Outcome::Unknown` (the game goes
/// on) becomes `None`. For standard chess shakmaty's source gives: with no
/// legal move the side in check loses and otherwise the game is drawn
/// (stalemate); with legal moves the game is drawn when
/// `is_insufficient_material` holds and goes on otherwise.
#[verifier::external_body]
pub(crate) fn outcome(p: &Position) -> (r: Option<Outcome>)
    ensures
        r == game_outcome(p@),
        chess_legal_moves(p@).len() > 0 ==> (r == Some(Outcome::Draw)
            <==> chess_is_insufficient_material(p@)),
{
    match shakmaty::Position::outcome(&p.chess) {
        shakmaty::Outcome::Known(shakmaty::KnownOutcome::Decisive { winner }) => Some(Outcome::Decisive {
            winner: if winner == shakmaty::Color::White { Color::White } else { Color::Black },
        }),
        shakmaty::Outcome::Known(shakmaty::KnownOutcome::Draw) => Some(Outcome::Draw),
        shakmaty::Outcome::Unknown => None,
    }
}

} // verus!
