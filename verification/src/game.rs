//! One game of chess between two holders of identity tokens.
//!
//! A game is open until a move mates or stalemates, or a player resigns;
//! from then on it only answers who won. Whose turn it is and whether a
//! move is legal is for the rules engine to say, from the board alone.

use crate::engine;
use crate::error::TchessError;
use crate::ledger::{
    Attested,
    Identity,
    NonFungibleAddress,
    NonFungibleId,
    OwnershipProof,
    ResourceAddress,
};
use crate::types::{Outcome, Player};
use vstd::prelude::*;

verus! {

/// A game, as mathematics.
pub struct Session {
    /// The identity that plays white.
    pub white: Identity,
    /// The identity that plays black.
    pub black: Identity,
    /// The board, in the engine's notation.
    pub board: Seq<char>,
    /// How the game ended, once it has.
    pub outcome: Option<Outcome>,
    /// The resource whose tokens identify players.
    pub badge: Seq<u8>,
}

impl Session {
    /// The game has ended.
    pub open spec fn finished(self) -> bool {
        self.outcome is Some
    }

    /// The side that `id` plays in this game, white being looked at first.
    pub open spec fn seat(self, id: Identity) -> Option<Player> {
        if self.white == id {
            Some(Player::White)
        } else if self.black == id {
            Some(Player::Black)
        } else {
            None
        }
    }

    /// The side on whose behalf `presented` speaks, if the identity that
    /// it resolves to is a player of this game.
    pub open spec fn presenter(self, presented: Attested) -> Option<Player> {
        match presented.identity(self.badge) {
            Some(id) => self.seat(id),
            None => None,
        }
    }

    /// The side that may move on the strength of `presented`: the side of
    /// the one identity that it attests, where it attests exactly one token
    /// of the players' resource and that token is a player's.
    pub open spec fn mover(self, presented: Attested) -> Option<Player> {
        match presented.sole(self.badge) {
            Some(id) => self.seat(id),
            None => None,
        }
    }

    /// The game after `mover` has played the accepted move `mv`: the board
    /// is the one the engine leaves, and the game ends where the engine
    /// finds that board mated or stale.
    pub open spec fn moved(self, mover: Player, mv: u16) -> Session {
        let board = engine::position_after(self.board, mv);
        Session {
            board,
            outcome: Outcome::brought_by(
                mover,
                engine::checkmate_in(board),
                engine::stalemate_in(board),
            ),
            ..self
        }
    }

    /// What `make_move` does: the game that follows, or the reason for
    /// which the move is refused.
    pub open spec fn make_move(self, presented: Attested, mv: u16) -> Result<Session, TchessError> {
        if self.finished() {
            Err(TchessError::GameOver)
        } else {
            match self.mover(presented) {
                None => Err(TchessError::NotAPlayer),
                Some(mover) => if engine::accepted(self.board, mv) {
                    Ok(self.moved(mover, mv))
                } else {
                    Err(TchessError::IllegalMove)
                },
            }
        }
    }

    /// What `resign` does: the game won by the opponent of whoever resigns,
    /// or the reason for which the resignation is refused.
    pub open spec fn resign(self, presented: Attested) -> Result<Session, TchessError> {
        if self.finished() {
            Err(TchessError::GameOver)
        } else {
            match self.presenter(presented) {
                None => Err(TchessError::NotAPlayer),
                Some(quitter) => Ok(
                    Session { outcome: Some(Outcome::Resignation(quitter.opponent())), ..self },
                ),
            }
        }
    }

    /// What `validate_winner` answers for `id`.
    pub open spec fn validate_winner(self, id: Identity) -> Result<(), TchessError> {
        match self.seat(id) {
            None => Err(TchessError::NotAPlayer),
            Some(player) => if self.outcome is Some && self.outcome.unwrap().victor() == Some(
                player,
            ) {
                Ok(())
            } else {
                Err(TchessError::NotTheWinner)
            },
        }
    }
}

/// One game. Its players and their resource never change, its board
/// changes only by accepted moves, and its outcome, once set, stays.
#[derive(Debug)]
pub struct TchessGame {
    black: NonFungibleId,
    white: NonFungibleId,
    board_state: String,
    outcome: Option<Outcome>,
    player_badge: ResourceAddress,
}

impl View for TchessGame {
    type V = Session;

    closed spec fn view(&self) -> Session {
        Session {
            white: self.white@,
            black: self.black@,
            board: self.board_state@,
            outcome: self.outcome,
            badge: self.player_badge@,
        }
    }
}

impl TchessGame {
    /// The board of a game is always in play.
    #[verifier::type_invariant]
    spec fn board_in_play(&self) -> bool {
        engine::in_play(self.board_state@)
    }

    /// Puts a game together from its parts, such as a stored game. The
    /// board must be in play: one that the engine wrote in a game, reads
    /// back, and can count further from.
    pub fn from_parts(
        white: NonFungibleId,
        black: NonFungibleId,
        board_state: String,
        outcome: Option<Outcome>,
        player_badge: ResourceAddress,
    ) -> (game: TchessGame)
        requires
            engine::in_play(board_state@),
        ensures
            game@ == (Session {
                white: white@,
                black: black@,
                board: board_state@,
                outcome,
                badge: player_badge@,
            }),
    {
        TchessGame { black, white, board_state, outcome, player_badge }
    }

    /// Puts a game together from the moves that were played in it, asking
    /// the engine to play them again from the start. The game is rebuilt
    /// where every move is allowed in its turn and the engine can carry the
    /// game on from every board, the last included; else there is none.
    pub fn replay(
        white: NonFungibleId,
        black: NonFungibleId,
        player_badge: ResourceAddress,
        moves: &Vec<u16>,
        outcome: Option<Outcome>,
    ) -> (game: Option<TchessGame>)
        ensures
            game is Some <==> engine::fair(moves@) && engine::carried_on(engine::line(moves@)),
            game matches Some(game) ==> game@ == (Session {
                white: white@,
                black: black@,
                board: engine::line(moves@),
                outcome,
                badge: player_badge@,
            }),
    {
        let mut board = engine::opening();
        assert(moves@.take(0) =~= Seq::<u16>::empty());
        let mut i: usize = 0;
        while i < moves.len()
            invariant
                i <= moves.len(),
                engine::fair(moves@.take(i as int)),
                board@ == engine::line(moves@.take(i as int)),
                engine::carried_on(board@),
            decreases moves.len() - i,
        {
            let mv = moves[i];
            let allowed = engine::pseudo_legal(board.as_str(), mv) && engine::legal(
                board.as_str(),
                mv,
            );
            if !allowed {
                proof {
                    if engine::fair(moves@) {
                        engine::lemma_fair_prefix(moves@, i as int);
                    }
                }
                return None;
            }
            let next = engine::play(board.as_str(), mv);
            proof {
                engine::lemma_fair_step(moves@, i as int);
            }
            let carried_on = engine::reads(next.as_str()) && engine::plies(next.as_str())
                < engine::PLY_LIMIT;
            if !carried_on {
                proof {
                    if i + 1 == moves.len() {
                        assert(moves@.take(i as int + 1) =~= moves@);
                    } else if engine::fair(moves@) {
                        engine::lemma_fair_prefix(moves@, i as int + 1);
                    }
                }
                return None;
            }
            board = next;
            i += 1;
        }
        assert(moves@.take(i as int) =~= moves@);
        Some(TchessGame::from_parts(white, black, board, outcome, player_badge))
    }

    /// Starts a game between the holders of `white` and `black`, which must
    /// be tokens of one resource. The board is the starting position and
    /// the game is open.
    pub fn new(white: NonFungibleAddress, black: NonFungibleAddress) -> (made: Result<
        TchessGame,
        TchessError,
    >)
        ensures
            match made {
                Ok(game) => white.resource@ == black.resource@ && game@ == (Session {
                    white: white.id@,
                    black: black.id@,
                    board: engine::start_position(),
                    outcome: None,
                    badge: white.resource@,
                }),
                Err(reason) => reason == TchessError::ResourceMismatch && white.resource@
                    != black.resource@,
            },
    {
        if white.resource != black.resource {
            return Err(TchessError::ResourceMismatch);
        }
        let board_state = engine::opening();
        proof {
            engine::lemma_start_written();
        }
        Ok(TchessGame::from_parts(white.id, black.id, board_state, None, white.resource))
    }

    /// Plays the move `mv`, sixteen bits in the engine's encoding, for the
    /// player whose token `presented` attests. The proof must attest
    /// exactly one token of the players' resource.
    ///
    /// Refused with `GameOver` once the game has ended, else with
    /// `NotAPlayer` where the proof is of another resource, lists no token
    /// or several, or lists the token of neither player, else with
    /// `IllegalMove` where the engine does not allow the move or cannot
    /// carry the game on from the board that it leaves. An accepted move
    /// replaces the board; it ends the game as `Checkmate` for the mover or
    /// as `Stalemate` where the engine says so of the new board.
    pub fn make_move(&mut self, presented: &OwnershipProof, mv: u16) -> (done: Result<
        (),
        TchessError,
    >)
        ensures
            match old(self)@.make_move(presented@, mv) {
                Ok(next) => done is Ok && final(self)@ == next,
                Err(reason) => done == Err::<(), TchessError>(reason) && final(self)@ == old(
                    self,
                )@,
            },
    {
        proof {
            use_type_invariant(&*self);
        }
        if self.is_game_over() {
            return Err(TchessError::GameOver);
        }
        let player = match self.check_proof_is_mover(presented) {
            Some(player) => player,
            None => {
                return Err(TchessError::NotAPlayer);
            },
        };
        if !engine::pseudo_legal(self.board_state.as_str(), mv) {
            return Err(TchessError::IllegalMove);
        }
        if !engine::legal(self.board_state.as_str(), mv) {
            return Err(TchessError::IllegalMove);
        }
        let board = engine::play(self.board_state.as_str(), mv);
        proof {
            engine::lemma_written_after(self.board_state@, mv);
        }
        if !engine::reads(board.as_str()) {
            return Err(TchessError::IllegalMove);
        }
        if engine::plies(board.as_str()) >= engine::PLY_LIMIT {
            return Err(TchessError::IllegalMove);
        }
        let checkmate = engine::checkmate(board.as_str());
        let stalemate = !checkmate && engine::stalemate(board.as_str());
        self.board_state = board;
        self.outcome = Outcome::after_move(player, checkmate, stalemate);
        Ok(())
    }

    /// The side that may move on the strength of `presented`, or `None`
    /// where it does not attest exactly one token of the players' resource
    /// or that token is neither player's.
    pub fn check_proof_is_mover(&self, presented: &OwnershipProof) -> (player: Option<Player>)
        ensures
            player == self@.mover(presented@),
    {
        match presented.sole(&self.player_badge) {
            Some(id) => self.get_player_nf_id(id),
            None => None,
        }
    }

    /// The side that `presented` resolves to, or `None` where it is no
    /// proof of the players' resource, lists no token, or lists first a
    /// token of neither player.
    pub fn check_proof_is_player(&self, presented: &OwnershipProof) -> (player: Option<Player>)
        ensures
            player == self@.presenter(presented@),
    {
        match presented.resolve(&self.player_badge) {
            Some(id) => self.get_player_nf_id(id),
            None => None,
        }
    }

    /// Gives the game to the opponent of the player that `presented` stands
    /// for, whoever's turn it is.
    ///
    /// Refused with `GameOver` once the game has ended, else with
    /// `NotAPlayer` where the proof stands for neither player.
    pub fn resign(&mut self, presented: &OwnershipProof) -> (done: Result<(), TchessError>)
        ensures
            match old(self)@.resign(presented@) {
                Ok(next) => done is Ok && final(self)@ == next,
                Err(reason) => done == Err::<(), TchessError>(reason) && final(self)@ == old(
                    self,
                )@,
            },
    {
        proof {
            use_type_invariant(&*self);
        }
        if self.is_game_over() {
            return Err(TchessError::GameOver);
        }
        let player = match self.check_proof_is_player(presented) {
            Some(player) => player,
            None => {
                return Err(TchessError::NotAPlayer);
            },
        };
        self.outcome = Some(Outcome::Resignation(player.other()));
        Ok(())
    }

    /// The side that `id` plays, or `None` where it plays neither.
    pub fn get_player_nf_id(&self, id: &NonFungibleId) -> (player: Option<Player>)
        ensures
            player == self@.seat(id@),
    {
        if self.white == *id {
            Some(Player::White)
        } else if self.black == *id {
            Some(Player::Black)
        } else {
            None
        }
    }

    /// Whether the game has ended.
    pub fn is_game_over(&self) -> (over: bool)
        ensures
            over == self@.finished(),
    {
        self.outcome.is_some()
    }

    /// Confirms that `id` won the game. Changes nothing.
    ///
    /// Refused with `NotAPlayer` where `id` plays neither side, else with
    /// `NotTheWinner` where the game is open or has another winner or none.
    pub fn validate_winner(&self, id: NonFungibleId) -> (confirmed: Result<(), TchessError>)
        ensures
            confirmed == self@.validate_winner(id@),
    {
        let player = match self.get_player_nf_id(&id) {
            Some(player) => player,
            None => {
                return Err(TchessError::NotAPlayer);
            },
        };
        match &self.outcome {
            Some(outcome) => match outcome.winner() {
                Some(winner) => if winner == player {
                    Ok(())
                } else {
                    Err(TchessError::NotTheWinner)
                },
                None => Err(TchessError::NotTheWinner),
            },
            None => Err(TchessError::NotTheWinner),
        }
    }

    /// The identity that plays white.
    pub fn white(&self) -> (id: &NonFungibleId)
        ensures
            id@ == self@.white,
    {
        &self.white
    }

    /// The identity that plays black.
    pub fn black(&self) -> (id: &NonFungibleId)
        ensures
            id@ == self@.black,
    {
        &self.black
    }

    /// The board, in the engine's notation. It is always in play.
    pub fn board_state(&self) -> (board: &str)
        ensures
            board@ == self@.board,
            engine::in_play(board@),
    {
        proof {
            use_type_invariant(self);
        }
        self.board_state.as_str()
    }

    /// How the game ended, or `None` while it is open.
    pub fn outcome(&self) -> (outcome: Option<Outcome>)
        ensures
            outcome == self@.outcome,
    {
        self.outcome
    }

    /// The resource whose tokens identify players.
    pub fn player_badge(&self) -> (badge: ResourceAddress)
        ensures
            badge@ == self@.badge,
    {
        self.player_badge
    }
}

} // verus!
