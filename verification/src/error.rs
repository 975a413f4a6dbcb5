//! Why a call was refused.

use vstd::prelude::*;

verus! {

/// The reason for which a game or the arbiter refuses a call. A refused
/// call changes nothing.
#[derive(Debug, Clone, Copy, PartialEq, Eq, Structural)]
pub enum TchessError {
    /// A move or a resignation came after the game had ended.
    GameOver,
    /// The rules engine does not allow the move on the current board, or
    /// cannot carry the game on after it.
    IllegalMove,
    /// The proof stands for neither player of the game, is not a proof of
    /// the identity resource at all, or comes with a move and does not
    /// attest exactly one token.
    NotAPlayer,
    /// The identity is a player's, but the game is not finished or was not
    /// won by that player.
    NotTheWinner,
    /// The reward for the game was paid out before.
    AlreadyClaimed,
    /// The component was not made from the game template.
    WrongTemplate,
    /// The two identities of a new game belong to different resources.
    ResourceMismatch,
}

} // verus!
