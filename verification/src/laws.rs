//! What holds of every game and of every arbiter, proved from the rules in
//! `game` and `arbiter`.

use crate::arbiter::Authority;
use crate::error::TchessError;
use crate::game::Session;
use crate::ledger::{Attested, Identity};
use crate::types::Outcome;
use vstd::prelude::*;

verus! {

/// A finished game is final: it refuses every move and every resignation
/// with `GameOver`, whoever asks and whatever the move, so that nothing can
/// change its outcome.
pub proof fn law_finished_is_final(game: Session, presented: Attested, mv: u16)
    requires
        game.finished(),
    ensures
        game.make_move(presented, mv) == Err::<Session, TchessError>(TchessError::GameOver),
        game.resign(presented) == Err::<Session, TchessError>(TchessError::GameOver),
{
}

/// Whatever a move or a resignation does to a game, the players and their
/// resource stay, an outcome that was set stays, and a resignation leaves
/// the board alone.
pub proof fn law_only_board_and_outcome_change(game: Session, presented: Attested, mv: u16)
    ensures
        game.make_move(presented, mv) matches Ok(next) ==> next.white == game.white && next.black
            == game.black && next.badge == game.badge && game.outcome is None,
        game.resign(presented) matches Ok(next) ==> next.white == game.white && next.black
            == game.black && next.badge == game.badge && next.board == game.board && game.outcome
            is None,
{
}

/// An open game refuses with `NotAPlayer` every move and every resignation
/// that comes with a proof of neither player.
pub proof fn law_stranger_cannot_play(game: Session, presented: Attested, mv: u16)
    requires
        !game.finished(),
        game.presenter(presented) is None,
    ensures
        game.make_move(presented, mv) == Err::<Session, TchessError>(TchessError::NotAPlayer),
        game.resign(presented) == Err::<Session, TchessError>(TchessError::NotAPlayer),
{
}

/// An open game refuses with `NotAPlayer` every move that comes with a
/// proof which does not attest exactly one token of the players' resource,
/// whatever tokens it lists.
pub proof fn law_move_wants_one_token(game: Session, presented: Attested, mv: u16)
    requires
        !game.finished(),
        presented.resource != game.badge || presented.ids.len() != 1,
    ensures
        game.make_move(presented, mv) == Err::<Session, TchessError>(TchessError::NotAPlayer),
{
}

/// Whoever moves is a player: a move is taken only from a proof that
/// attests one token, and that token is white's or black's.
pub proof fn law_mover_is_a_player(game: Session, presented: Attested, mv: u16)
    requires
        game.make_move(presented, mv) is Ok,
    ensures
        presented.resource == game.badge,
        presented.ids.len() == 1,
        presented.ids[0] == game.white || presented.ids[0] == game.black,
        game.mover(presented) == game.presenter(presented),
{
}

/// A game, open or finished, answers `NotAPlayer` where it is asked
/// whether somebody won who plays neither side.
pub proof fn law_stranger_cannot_win(game: Session, id: Identity)
    requires
        id != game.white,
        id != game.black,
    ensures
        game.validate_winner(id) == Err::<(), TchessError>(TchessError::NotAPlayer),
{
}

/// A resignation gives the game to the other side: the outcome is
/// `Resignation` of the opponent of the player who resigned, and that
/// player is not the winner.
pub proof fn law_resignation_favours_opponent(game: Session, presented: Attested)
    requires
        game.resign(presented) is Ok,
    ensures
        game.presenter(presented) matches Some(quitter) && game.resign(presented).unwrap().outcome
            == Some(Outcome::Resignation(quitter.opponent())) && game.resign(
            presented,
        ).unwrap().outcome.unwrap().victor() != Some(quitter),
{
}

/// After a resignation the game confirms the opponent's identity as the
/// winner and answers `NotTheWinner` for the identity that resigned,
/// provided two different identities play.
pub proof fn law_resigner_is_not_confirmed(game: Session, presented: Attested)
    requires
        game.resign(presented) is Ok,
        game.white != game.black,
    ensures
        ({
            let quitter = presented.identity(game.badge).unwrap();
            let opponent = if quitter == game.white {
                game.black
            } else {
                game.white
            };
            let after = game.resign(presented).unwrap();
            after.validate_winner(opponent) == Ok::<(), TchessError>(()) && after.validate_winner(
                quitter,
            ) == Err::<(), TchessError>(TchessError::NotTheWinner)
        }),
{
}

/// The reward of a game is paid at most once: after one successful claim
/// every further claim for the same game is refused with `AlreadyClaimed`,
/// whatever proof, template and verdict come with it.
pub proof fn law_paid_at_most_once(
    arbiter: Authority,
    game: Seq<u8>,
    first: Attested,
    first_made_from: Seq<u8>,
    first_verdict: Result<(), TchessError>,
    second: Attested,
    second_made_from: Seq<u8>,
    second_verdict: Result<(), TchessError>,
)
    requires
        arbiter.claim_reward(first, game, first_made_from, first_verdict) is Ok,
    ensures
        arbiter.claim_reward(first, game, first_made_from, first_verdict).unwrap().claim_reward(
            second,
            game,
            second_made_from,
            second_verdict,
        ) == Err::<Authority, TchessError>(TchessError::AlreadyClaimed),
{
}

/// A successful claim lists its game as paid and forgets no game that was
/// listed before; the arbiter's addresses stay.
pub proof fn law_paid_games_only_grow(
    arbiter: Authority,
    presented: Attested,
    game: Seq<u8>,
    made_from: Seq<u8>,
    verdict: Result<(), TchessError>,
)
    requires
        arbiter.claim_reward(presented, game, made_from, verdict) is Ok,
    ensures
        ({
            let next = arbiter.claim_reward(presented, game, made_from, verdict).unwrap();
            &&& !arbiter.claimed.contains(game)
            &&& next.claimed.contains(game)
            &&& arbiter.claimed.subset_of(next.claimed)
            &&& next.token == arbiter.token
            &&& next.player_badge == arbiter.player_badge
            &&& next.game_template == arbiter.game_template
        }),
{
}

/// Each successful claim adds one game to those paid, of which an arbiter
/// has only finitely many.
pub proof fn law_each_claim_adds_one_game(
    arbiter: Authority,
    presented: Attested,
    game: Seq<u8>,
    made_from: Seq<u8>,
    verdict: Result<(), TchessError>,
)
    requires
        arbiter.claimed.finite(),
        arbiter.claim_reward(presented, game, made_from, verdict) is Ok,
    ensures
        ({
            let next = arbiter.claim_reward(presented, game, made_from, verdict).unwrap();
            next.claimed.finite() && next.claimed.len() == arbiter.claimed.len() + 1
        }),
{
}

/// Only a winner is paid. Where the verdict handed to `claim_reward` is
/// the answer of `game` to `validate_winner` for the claimant's identity,
/// a successful claim means that the game confirms that identity: the game
/// is finished, and the side that the identity plays won it.
pub proof fn law_only_the_winner_is_paid(
    arbiter: Authority,
    presented: Attested,
    address: Seq<u8>,
    made_from: Seq<u8>,
    game: Session,
)
    requires
        arbiter.claimant(presented, address, made_from) matches Ok(id) && arbiter.claim_reward(
            presented,
            address,
            made_from,
            game.validate_winner(id),
        ) is Ok,
    ensures
        arbiter.claimant(presented, address, made_from) matches Ok(id) && game.validate_winner(id)
            is Ok && game.finished() && game.seat(id) is Some && game.outcome.unwrap().victor()
            == game.seat(id),
{
}

/// A claim is refused, and nothing is paid, wherever the game does not
/// confirm the claimant.
pub proof fn law_unconfirmed_claim_is_refused(
    arbiter: Authority,
    presented: Attested,
    address: Seq<u8>,
    made_from: Seq<u8>,
    verdict: Result<(), TchessError>,
)
    requires
        verdict is Err,
    ensures
        arbiter.claim_reward(presented, address, made_from, verdict) is Err,
{
}

/// Seating depends on the entropy's lowest bit alone: of two successive
/// values one seats the first player as white and the other as black, so
/// that the 2^32 values of the entropy divide evenly between the two.
pub proof fn law_seating_alternates(
    arbiter: Authority,
    player_a: Attested,
    player_b: Attested,
    entropy: u32,
)
    requires
        entropy < u32::MAX,
        arbiter.create_game(player_a, player_b, entropy) is Ok,
    ensures
        ({
            let one = arbiter.create_game(player_a, player_b, entropy).unwrap();
            let other = arbiter.create_game(player_a, player_b, (entropy + 1) as u32);
            other is Ok && other.unwrap() == (one.1, one.0)
        }),
{
}

} // verus!
