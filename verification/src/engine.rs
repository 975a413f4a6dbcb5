//! The chess rules, which this crate does not hold: it asks `pleco`.
//!
//! A position travels as text in Forsyth-Edwards notation and a move as the
//! sixteen bits of a `pleco::BitMove`. Each answer of the engine has a name
//! below, and the calls at the end of the file are believed to return what
//! the names say. Every call builds its board anew from the text, so that
//! an answer depends on nothing but the text and the move. Nothing here is
//! proved about chess itself.
//!
//! The engine is made for positions of real games and may panic on others.
//! So it is only ever asked about positions *in play*: those that it wrote
//! itself, move by allowed move from the start, and reads back.

use pleco::{BitMove, Board};
use vstd::prelude::*;

verus! {

/// Whether `Board::from_fen` builds a board from `position`.
pub uninterp spec fn fen_accepted(position: Seq<char>) -> bool;

/// What `Board::pseudo_legal_move` says of `mv` on the board of `position`.
pub uninterp spec fn pseudo_legal_in(position: Seq<char>, mv: u16) -> bool;

/// What `Board::legal_move` says of `mv` on the board of `position`.
pub uninterp spec fn legal_in(position: Seq<char>, mv: u16) -> bool;

/// The position, as `Board::fen` writes it, that `Board::apply_move` leaves
/// when `mv` is played on the board of `position`.
pub uninterp spec fn position_after(position: Seq<char>, mv: u16) -> Seq<char>;

/// What `Board::checkmate` says of the board of `position`.
pub uninterp spec fn checkmate_in(position: Seq<char>) -> bool;

/// What `Board::stalemate` says of the board of `position`.
pub uninterp spec fn stalemate_in(position: Seq<char>) -> bool;

/// What `Board::moves_played` says of the board of `position`: the number
/// of plies played since the start.
pub uninterp spec fn plies_in(position: Seq<char>) -> u16;

/// A game goes on only below this number of plies. The engine counts the
/// plies of a game in sixteen bits, and those since the last capture or
/// pawn move in sixteen bits with a sign; below the limit both can grow.
pub const PLY_LIMIT: u16 = 32767;

/// The position from which every game starts.
pub open spec fn start_position() -> Seq<char> {
    "rnbqkbnr/pppppppp/8/8/8/8/PPPPPPPP/RNBQKBNR w KQkq - 0 1"@
}

/// The engine's full test of legality: the move is possible for the side
/// to move, and it does not leave that side's own king attacked.
pub open spec fn allowed(position: Seq<char>, mv: u16) -> bool {
    pseudo_legal_in(position, mv) && legal_in(position, mv)
}

/// The position reached when `moves` are played in turn from the start.
pub open spec fn line(moves: Seq<u16>) -> Seq<char>
    decreases moves.len(),
{
    if moves.len() == 0 {
        start_position()
    } else {
        position_after(line(moves.drop_last()), moves.last())
    }
}

/// The engine reads `position` and counts fewer plies in it than the limit.
pub open spec fn carried_on(position: Seq<char>) -> bool {
    fen_accepted(position) && plies_in(position) < PLY_LIMIT
}

/// Every move of `moves` was played on a position from which the engine
/// could carry the game on, and was allowed there.
pub open spec fn fair(moves: Seq<u16>) -> bool
    decreases moves.len(),
{
    moves.len() == 0 || {
        let before = moves.drop_last();
        fair(before) && carried_on(line(before)) && allowed(line(before), moves.last())
    }
}

/// `position` is the start, or was written by the engine after an allowed
/// move in a game played from the start.
pub open spec fn written(position: Seq<char>) -> bool {
    exists|moves: Seq<u16>| fair(moves) && #[trigger] line(moves) == position
}

/// `position` can stand in a game: the engine wrote it, reads it back, and
/// can count further. Only such positions are handed to its judgement.
pub open spec fn in_play(position: Seq<char>) -> bool {
    written(position) && carried_on(position)
}

/// A move is accepted on `position` when the engine allows it there and
/// the position that it leaves can stand in a game.
pub open spec fn accepted(position: Seq<char>, mv: u16) -> bool {
    allowed(position, mv) && carried_on(position_after(position, mv))
}

/// The start is a written position.
pub proof fn lemma_start_written()
    ensures
        written(start_position()),
{
    let none = Seq::<u16>::empty();
    assert(fair(none) && line(none) == start_position());
}

/// What the engine writes after an allowed move on a position in play is a
/// written position again.
pub proof fn lemma_written_after(position: Seq<char>, mv: u16)
    requires
        in_play(position),
        allowed(position, mv),
    ensures
        written(position_after(position, mv)),
{
    let moves = choose|moves: Seq<u16>| fair(moves) && #[trigger] line(moves) == position;
    let longer = moves.push(mv);
    assert(longer.drop_last() =~= moves);
    assert(longer.last() == mv);
    assert(fair(longer) && line(longer) == position_after(position, mv));
}

/// A fair line is fair up to each of its moves: every move of it was
/// allowed on the position that the moves before it reach, and the game
/// could be carried on from that position.
pub proof fn lemma_fair_prefix(moves: Seq<u16>, k: int)
    requires
        fair(moves),
        0 <= k <= moves.len(),
    ensures
        fair(moves.take(k)),
        k < moves.len() ==> carried_on(line(moves.take(k))) && allowed(
            line(moves.take(k)),
            moves[k],
        ),
    decreases moves.len(),
{
    if k == moves.len() {
        assert(moves.take(k) =~= moves);
    } else {
        let before = moves.drop_last();
        if k == moves.len() - 1 {
            assert(moves.take(k) =~= before);
        } else {
            lemma_fair_prefix(before, k);
            assert(before.take(k) =~= moves.take(k));
        }
    }
}

/// One more allowed move, played where the game could be carried on, makes
/// a fair line one move longer and reaches what the engine writes.
pub proof fn lemma_fair_step(moves: Seq<u16>, k: int)
    requires
        0 <= k < moves.len(),
        fair(moves.take(k)),
        carried_on(line(moves.take(k))),
        allowed(line(moves.take(k)), moves[k]),
    ensures
        fair(moves.take(k + 1)),
        line(moves.take(k + 1)) == position_after(line(moves.take(k)), moves[k]),
{
    let longer = moves.take(k + 1);
    assert(longer.drop_last() =~= moves.take(k));
    assert(longer.last() == moves[k]);
}

/// `Board::start_pos`, written out by `Board::fen`.
///
/// Believed: the text is the standard starting position, `Board::from_fen`
/// accepts it (`start_pos` is that very call, unwrapped), and no ply has
/// been played in it.
#[verifier::external_body]
pub(crate) fn opening() -> (position: String)
    ensures
        position@ == start_position(),
        fen_accepted(position@),
        plies_in(position@) == 0,
{
    Board::start_pos().fen()
}

/// `Board::from_fen`, asked only whether it returns a board.
///
/// Believed: the answer depends on the text alone. The call is made only on
/// text that the engine itself wrote.
#[verifier::external_body]
pub(crate) fn reads(position: &str) -> (ok: bool)
    requires
        written(position@),
    ensures
        ok == fen_accepted(position@),
{
    Board::from_fen(position).is_ok()
}

/// `Board::moves_played` on the board that `Board::from_fen` builds.
///
/// Believed: the count depends on the text alone.
#[verifier::external_body]
pub(crate) fn plies(position: &str) -> (count: u16)
    requires
        written(position@),
        fen_accepted(position@),
    ensures
        count == plies_in(position@),
{
    Board::from_fen(position).unwrap().moves_played()
}

/// `Board::pseudo_legal_move` on the board that `Board::from_fen` builds.
///
/// Believed: on a position in play the call returns for every sixteen bits,
/// and its answer depends on the position and the bits alone.
#[verifier::external_body]
pub(crate) fn pseudo_legal(position: &str, mv: u16) -> (ok: bool)
    requires
        in_play(position@),
    ensures
        ok == pseudo_legal_in(position@, mv),
{
    Board::from_fen(position).unwrap().pseudo_legal_move(BitMove::new(mv))
}

/// `Board::legal_move` on the board that `Board::from_fen` builds.
///
/// Believed: the answer depends on the position and the bits alone. The
/// engine asks that the move be pseudo-legal, so the contract does too.
#[verifier::external_body]
pub(crate) fn legal(position: &str, mv: u16) -> (ok: bool)
    requires
        in_play(position@),
        pseudo_legal_in(position@, mv),
    ensures
        ok == legal_in(position@, mv),
{
    Board::from_fen(position).unwrap().legal_move(BitMove::new(mv))
}

/// `Board::apply_move` on the board that `Board::from_fen` builds, the
/// result written out by `Board::fen`.
///
/// Believed: the text depends on the position and the bits alone. The
/// engine panics on a move that is not legal, so the contract asks for one
/// that passed both of its tests. It adds one to its two counters, which
/// on a position in play stand below the limit: the plies since the last
/// capture or pawn move are never more than the plies since the start.
#[verifier::external_body]
pub(crate) fn play(position: &str, mv: u16) -> (next: String)
    requires
        in_play(position@),
        allowed(position@, mv),
    ensures
        next@ == position_after(position@, mv),
{
    let mut board = Board::from_fen(position).unwrap();
    board.apply_move(BitMove::new(mv));
    board.fen()
}

/// `Board::checkmate` on the board that `Board::from_fen` builds.
///
/// Believed: the answer depends on the position alone.
#[verifier::external_body]
pub(crate) fn checkmate(position: &str) -> (mate: bool)
    requires
        in_play(position@),
    ensures
        mate == checkmate_in(position@),
{
    Board::from_fen(position).unwrap().checkmate()
}

/// `Board::stalemate` on the board that `Board::from_fen` builds.
///
/// Believed: the answer depends on the position alone.
#[verifier::external_body]
pub(crate) fn stalemate(position: &str) -> (stale: bool)
    requires
        in_play(position@),
    ensures
        stale == stalemate_in(position@),
{
    Board::from_fen(position).unwrap().stalemate()
}

} // verus!
