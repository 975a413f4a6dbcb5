//! The two sides of a game and the ways a game can end.

use vstd::prelude::*;

verus! {

/// One of the two sides of a game.
#[derive(Debug, Clone, Copy, PartialEq, Eq, Structural)]
pub enum Player {
    White,
    Black,
}

impl Player {
    /// The side that `self` plays against.
    pub open spec fn opponent(self) -> Player {
        match self {
            Player::White => Player::Black,
            Player::Black => Player::White,
        }
    }

    /// Returns the side that `self` plays against.
    pub fn other(self) -> (opponent: Player)
        ensures
            opponent == self.opponent(),
    {
        match self {
            Player::White => Player::Black,
            Player::Black => Player::White,
        }
    }
}

/// How a game ended. A finished game never leaves its outcome.
#[derive(Debug, Clone, Copy, PartialEq, Eq, Structural)]
pub enum Outcome {
    /// The named side mated the other.
    Checkmate(Player),
    /// The named side won because the other gave up.
    Resignation(Player),
    /// The rules engine found the game stale: nobody wins.
    Stalemate,
    /// Nobody wins.
    Draw,
}

impl Outcome {
    /// The side that won, if any side did.
    pub open spec fn victor(self) -> Option<Player> {
        match self {
            Outcome::Checkmate(player) => Some(player),
            Outcome::Resignation(player) => Some(player),
            Outcome::Stalemate => None,
            Outcome::Draw => None,
        }
    }

    /// The outcome that a move brings about, given what the rules engine
    /// says of the position the move leaves: mate wins the game for the
    /// mover and is looked at first, stalemate ends it without a winner,
    /// and anything else leaves the game open.
    pub open spec fn brought_by(mover: Player, checkmate: bool, stalemate: bool) -> Option<
        Outcome,
    > {
        if checkmate {
            Some(Outcome::Checkmate(mover))
        } else if stalemate {
            Some(Outcome::Stalemate)
        } else {
            None
        }
    }

    /// Returns the side that won, or `None` for a game that nobody won.
    pub fn winner(&self) -> (winner: Option<Player>)
        ensures
            winner == self.victor(),
    {
        match self {
            Outcome::Checkmate(player) => Some(*player),
            Outcome::Resignation(player) => Some(*player),
            _ => None,
        }
    }

    /// Decides how a move by `mover` ends the game, from the engine's two
    /// answers about the position after the move.
    pub fn after_move(mover: Player, checkmate: bool, stalemate: bool) -> (outcome: Option<
        Outcome,
    >)
        ensures
            outcome == Outcome::brought_by(mover, checkmate, stalemate),
    {
        if checkmate {
            return Some(Outcome::Checkmate(mover));
        }
        if stalemate {
            return Some(Outcome::Stalemate);
        }
        None
    }
}

} // verus!
