//! The arbiter: it names players, seats two of them at a new game, and
//! pays the winner of a finished game, once.
//!
//! The arbiter decides; it does not act on the ledger. Where a decision
//! calls for minting a token or for asking a game who won, the caller does
//! that and reports back.

use crate::error::TchessError;
use crate::ledger::{
    Attested,
    ComponentAddress,
    Identity,
    NonFungibleAddress,
    NonFungibleId,
    OwnershipProof,
    ResourceAddress,
    TemplateAddress,
};
use vstd::prelude::*;

verus! {

/// The reward for a won game, in units of the reward token.
pub const REWARD: u64 = 100;

/// The keys of the addresses in `games`.
pub open spec fn keys_of(games: Seq<ComponentAddress>) -> Set<Seq<u8>> {
    Set::new(|key: Seq<u8>| exists|i: int| 0 <= i < games.len() && (#[trigger] games[i])@ == key)
}

/// No address occurs twice in `games`.
pub open spec fn distinct(games: Seq<ComponentAddress>) -> bool {
    forall|i: int, j: int|
        0 <= i < j < games.len() ==> (#[trigger] games[i])@ != (#[trigger] games[j])@
}

/// One more address in a list is one more key among its keys.
pub proof fn lemma_keys_of_push(games: Seq<ComponentAddress>, game: ComponentAddress)
    ensures
        keys_of(games.push(game)) == keys_of(games).insert(game@),
{
    let longer = games.push(game);
    assert forall|key: Seq<u8>| keys_of(longer).contains(key) implies #[trigger] keys_of(
        games,
    ).insert(game@).contains(key) by {
        let k = choose|k: int| 0 <= k < longer.len() && (#[trigger] longer[k])@ == key;
        if k < games.len() {
            assert(games[k]@ == key);
        }
    }
    assert forall|key: Seq<u8>| #[trigger] keys_of(games).insert(game@).contains(
        key,
    ) implies keys_of(longer).contains(key) by {
        if key == game@ {
            assert(longer[games.len() as int]@ == key);
        } else {
            let k = choose|k: int| 0 <= k < games.len() && (#[trigger] games[k])@ == key;
            assert(longer[k]@ == key);
        }
    }
    assert(keys_of(longer) =~= keys_of(games).insert(game@));
}

/// A list has finitely many keys: as many as it has addresses where none
/// occurs twice.
pub proof fn lemma_keys_of_count(games: Seq<ComponentAddress>)
    ensures
        keys_of(games).finite(),
        distinct(games) ==> keys_of(games).len() == games.len(),
    decreases games.len(),
{
    if games.len() == 0 {
        assert(keys_of(games) =~= Set::empty());
    } else {
        let before = games.drop_last();
        let last = games.last();
        lemma_keys_of_count(before);
        lemma_keys_of_push(before, last);
        assert(before.push(last) =~= games);
        if distinct(games) {
            assert forall|i: int, j: int| 0 <= i < j < before.len() implies (#[trigger] before[i])@
                != (#[trigger] before[j])@ by {
                assert(games[i]@ != games[j]@);
            }
            if keys_of(before).contains(last@) {
                let k = choose|k: int| 0 <= k < before.len() && (#[trigger] before[k])@ == last@;
                assert(games[k]@ != games[games.len() - 1]@);
            }
        }
    }
}

/// The arbiter, as mathematics.
pub struct Authority {
    /// The resource of the reward token.
    pub token: Seq<u8>,
    /// The resource whose tokens identify players.
    pub player_badge: Seq<u8>,
    /// The games whose reward has been paid.
    pub claimed: Set<Seq<u8>>,
    /// The template from which this arbiter's games are made.
    pub game_template: Seq<u8>,
}

impl Authority {
    /// The identity that claims the reward of `game`, where the claim
    /// passes the tests that need nothing from the ledger: the game was
    /// not paid out before, and the proof is one of the identity resource.
    pub open spec fn screen(self, presented: Attested, game: Seq<u8>) -> Result<
        Identity,
        TchessError,
    > {
        if self.claimed.contains(game) {
            Err(TchessError::AlreadyClaimed)
        } else {
            match presented.identity(self.player_badge) {
                None => Err(TchessError::NotAPlayer),
                Some(id) => Ok(id),
            }
        }
    }

    /// The identity for which the reward of `game` may be claimed, where
    /// the claim passes the arbiter's own tests: those of `screen`, and
    /// then that the component at `game` was made from `made_from`, the
    /// arbiter's game template.
    pub open spec fn claimant(
        self,
        presented: Attested,
        game: Seq<u8>,
        made_from: Seq<u8>,
    ) -> Result<Identity, TchessError> {
        match self.screen(presented, game) {
            Err(reason) => Err(reason),
            Ok(id) => if made_from == self.game_template {
                Ok(id)
            } else {
                Err(TchessError::WrongTemplate)
            },
        }
    }

    /// What `claim_reward` does: the arbiter with `game` paid out, or the
    /// reason for which the claim is refused. `verdict` is what the game
    /// answered when asked whether the claimant won.
    pub open spec fn claim_reward(
        self,
        presented: Attested,
        game: Seq<u8>,
        made_from: Seq<u8>,
        verdict: Result<(), TchessError>,
    ) -> Result<Authority, TchessError> {
        match self.claimant(presented, game, made_from) {
            Err(reason) => Err(reason),
            Ok(_) => match verdict {
                Err(reason) => Err(reason),
                Ok(_) => Ok(Authority { claimed: self.claimed.insert(game), ..self }),
            },
        }
    }

    /// The identities that `create_game` seats as white and as black: the
    /// first proof's plays white where `entropy` is even, black where it is
    /// odd.
    pub open spec fn create_game(
        self,
        player_a: Attested,
        player_b: Attested,
        entropy: u32,
    ) -> Result<(Identity, Identity), TchessError> {
        match (player_a.identity(self.player_badge), player_b.identity(self.player_badge)) {
            (Some(a), Some(b)) => if entropy % 2 == 0 {
                Ok((a, b))
            } else {
                Ok((b, a))
            },
            _ => Err(TchessError::NotAPlayer),
        }
    }
}

/// Who plays which side of a game to be made.
#[derive(Debug)]
pub struct Seating {
    pub white: NonFungibleAddress,
    pub black: NonFungibleAddress,
}

/// The arbiter. Its three addresses never change, and the list of paid
/// games only grows.
#[derive(Debug)]
pub struct Tchess {
    token: ResourceAddress,
    player_badge: ResourceAddress,
    claimed_games: Vec<ComponentAddress>,
    game_template: TemplateAddress,
}

impl View for Tchess {
    type V = Authority;

    closed spec fn view(&self) -> Authority {
        Authority {
            token: self.token@,
            player_badge: self.player_badge@,
            claimed: keys_of(self.claimed_games@),
            game_template: self.game_template@,
        }
    }
}

impl Tchess {
    /// No game is listed twice as paid.
    #[verifier::type_invariant]
    spec fn listed_once(&self) -> bool {
        distinct(self.claimed_games@)
    }

    /// An arbiter that has paid nothing yet. `token` is the resource of the
    /// reward, `player_badge` the resource of the identity tokens, and
    /// `game_template` the template of the games it will pair players for.
    pub fn new(
        token: ResourceAddress,
        player_badge: ResourceAddress,
        game_template: TemplateAddress,
    ) -> (arbiter: Tchess)
        ensures
            arbiter@ == (Authority {
                token: token@,
                player_badge: player_badge@,
                claimed: Set::empty(),
                game_template: game_template@,
            }),
            arbiter@.claimed.finite(),
    {
        let arbiter = Tchess { token, player_badge, claimed_games: Vec::new(), game_template };
        assert(keys_of(arbiter.claimed_games@) =~= Set::empty());
        arbiter
    }

    /// Puts an arbiter together from its parts, such as a stored one. An
    /// address that `claimed` lists more than once is kept once.
    pub fn from_parts(
        token: ResourceAddress,
        player_badge: ResourceAddress,
        claimed: Vec<ComponentAddress>,
        game_template: TemplateAddress,
    ) -> (arbiter: Tchess)
        ensures
            arbiter@ == (Authority {
                token: token@,
                player_badge: player_badge@,
                claimed: keys_of(claimed@),
                game_template: game_template@,
            }),
            arbiter@.claimed.finite(),
    {
        proof {
            lemma_keys_of_count(claimed@);
        }
        let mut arbiter = Tchess::new(token, player_badge, game_template);
        let mut i: usize = 0;
        while i < claimed.len()
            invariant
                i <= claimed.len(),
                arbiter@.token == token@,
                arbiter@.player_badge == player_badge@,
                arbiter@.game_template == game_template@,
                arbiter@.claimed == keys_of(claimed@.take(i as int)),
            decreases claimed.len() - i,
        {
            let game = claimed[i];
            arbiter.record(game);
            proof {
                lemma_keys_of_push(claimed@.take(i as int), game);
                assert(claimed@.take(i as int).push(game) =~= claimed@.take(i as int + 1));
            }
            i += 1;
        }
        assert(claimed@.take(i as int) =~= claimed@);
        arbiter
    }

    /// Lists `game` as paid, once.
    fn record(&mut self, game: ComponentAddress)
        ensures
            final(self)@ == (Authority { claimed: old(self)@.claimed.insert(game@), ..old(self)@ }),
    {
        proof {
            use_type_invariant(&*self);
        }
        if self.is_claimed(&game) {
            assert(self@.claimed.insert(game@) =~= self@.claimed);
            return;
        }
        let ghost before = self.claimed_games@;
        let mut games: Vec<ComponentAddress> = Vec::new();
        core::mem::swap(&mut games, &mut self.claimed_games);
        games.push(game);
        proof {
            lemma_keys_of_push(before, game);
            let after = games@;
            assert forall|i: int, j: int| 0 <= i < j < after.len() implies (#[trigger] after[i])@
                != (#[trigger] after[j])@ by {
                if j < before.len() {
                    assert(before[i]@ != before[j]@);
                } else {
                    assert(keys_of(before).contains(before[i]@));
                }
            }
        }
        core::mem::swap(&mut games, &mut self.claimed_games);
    }

    /// Whether the reward of `game` has been paid.
    pub fn is_claimed(&self, game: &ComponentAddress) -> (claimed: bool)
        ensures
            claimed == self@.claimed.contains(game@),
    {
        let mut i: usize = 0;
        while i < self.claimed_games.len()
            invariant
                i <= self.claimed_games.len(),
                forall|j: int| 0 <= j < i ==> (#[trigger] self.claimed_games@[j])@ != game@,
            decreases self.claimed_games.len() - i,
        {
            if self.claimed_games[i] == *game {
                return true;
            }
            i += 1;
        }
        false
    }

    /// The identity token to mint for the player who signs with the public
    /// key `signer`: the token of the identity resource that the key
    /// itself names. The same key always gives the same token.
    pub fn create_user(&self, signer: [u8; 32]) -> (badge: NonFungibleAddress)
        ensures
            badge.resource@ == self@.player_badge,
            badge.id@ == Identity::U256(signer@),
    {
        NonFungibleAddress::new(self.player_badge, NonFungibleId::U256(signer))
    }

    /// Seats the two players that the proofs stand for at a game to be
    /// made. Where `entropy` is even the first plays white, where it is odd
    /// the second does. Changes nothing.
    ///
    /// Refused with `NotAPlayer` where either proof is not one of the
    /// identity resource or lists no token.
    pub fn create_game(
        &self,
        player_a: &OwnershipProof,
        player_b: &OwnershipProof,
        entropy: u32,
    ) -> (made: Result<Seating, TchessError>)
        ensures
            match self@.create_game(player_a@, player_b@, entropy) {
                Ok((white, black)) => made is Ok && made.unwrap().white.id@ == white
                    && made.unwrap().black.id@ == black && made.unwrap().white.resource@
                    == self@.player_badge && made.unwrap().black.resource@ == self@.player_badge,
                Err(reason) => made is Err && made.unwrap_err() == reason,
            },
    {
        let a = match player_a.resolve(&self.player_badge) {
            Some(id) => id.clone(),
            None => {
                return Err(TchessError::NotAPlayer);
            },
        };
        let b = match player_b.resolve(&self.player_badge) {
            Some(id) => id.clone(),
            None => {
                return Err(TchessError::NotAPlayer);
            },
        };
        let player_a_addr = NonFungibleAddress::new(self.player_badge, a);
        let player_b_addr = NonFungibleAddress::new(self.player_badge, b);
        if entropy % 2 == 0 {
            Ok(Seating { white: player_a_addr, black: player_b_addr })
        } else {
            Ok(Seating { white: player_b_addr, black: player_a_addr })
        }
    }

    /// The first tests of a claim to the reward of `game`, made before the
    /// ledger is asked anything about the game. Gives the identity that
    /// claims. Changes nothing.
    ///
    /// Refused with `AlreadyClaimed` where the game was paid out before,
    /// else with `NotAPlayer` where the proof is not one of the identity
    /// resource or lists no token.
    pub fn screen(&self, presented: &OwnershipProof, game: &ComponentAddress) -> (found: Result<
        NonFungibleId,
        TchessError,
    >)
        ensures
            match self@.screen(presented@, game@) {
                Ok(id) => found is Ok && found.unwrap()@ == id,
                Err(reason) => found is Err && found.unwrap_err() == reason,
            },
    {
        if self.is_claimed(game) {
            return Err(TchessError::AlreadyClaimed);
        }
        match presented.resolve(&self.player_badge) {
            Some(id) => Ok(id.clone()),
            None => Err(TchessError::NotAPlayer),
        }
    }

    /// The identity that claims the reward of `game`, to be put to the game
    /// itself before anything is paid. `made_from` is the template of the
    /// component at `game`, as the ledger reports it. Changes nothing.
    ///
    /// Refused with `AlreadyClaimed` where the game was paid out before,
    /// else with `NotAPlayer` where the proof is not one of the identity
    /// resource or lists no token, else with `WrongTemplate` where the
    /// component was not made from the arbiter's game template.
    pub fn claimant(
        &self,
        presented: &OwnershipProof,
        game: &ComponentAddress,
        made_from: &TemplateAddress,
    ) -> (found: Result<NonFungibleId, TchessError>)
        ensures
            match self@.claimant(presented@, game@, made_from@) {
                Ok(id) => found is Ok && found.unwrap()@ == id,
                Err(reason) => found is Err && found.unwrap_err() == reason,
            },
    {
        let id = match self.screen(presented, game) {
            Ok(id) => id,
            Err(reason) => {
                return Err(reason);
            },
        };
        if *made_from != self.game_template {
            return Err(TchessError::WrongTemplate);
        }
        Ok(id)
    }

    /// Settles the claim to the reward of `game`. `verdict` is the answer
    /// of the game at that address to `validate_winner` for the identity
    /// that `claimant` gave. On success the game is listed as paid and the
    /// amount to mint for the claimant is returned.
    ///
    /// Refused for the reasons of `claimant`, in its order, else with the
    /// game's own reason where it did not confirm the winner. A refused
    /// claim changes nothing.
    pub fn claim_reward(
        &mut self,
        presented: &OwnershipProof,
        game: ComponentAddress,
        made_from: TemplateAddress,
        verdict: Result<(), TchessError>,
    ) -> (paid: Result<u64, TchessError>)
        ensures
            match old(self)@.claim_reward(presented@, game@, made_from@, verdict) {
                Ok(next) => paid == Ok::<u64, TchessError>(REWARD) && final(self)@ == next,
                Err(reason) => paid == Err::<u64, TchessError>(reason) && final(self)@ == old(
                    self,
                )@,
            },
            final(self)@.claimed.finite(),
    {
        proof {
            lemma_keys_of_count(self.claimed_games@);
        }
        match self.claimant(presented, &game, &made_from) {
            Ok(_) => {},
            Err(reason) => {
                return Err(reason);
            },
        }
        match verdict {
            Ok(_) => {},
            Err(reason) => {
                return Err(reason);
            },
        }
        self.record(game);
        Ok(REWARD)
    }

    /// The resource of the reward token.
    pub fn token(&self) -> (token: ResourceAddress)
        ensures
            token@ == self@.token,
    {
        self.token
    }

    /// The resource whose tokens identify players.
    pub fn player_badge(&self) -> (badge: ResourceAddress)
        ensures
            badge@ == self@.player_badge,
    {
        self.player_badge
    }

    /// The template from which this arbiter's games are made.
    pub fn game_template(&self) -> (template: TemplateAddress)
        ensures
            template@ == self@.game_template,
    {
        self.game_template
    }

    /// The games whose reward has been paid, each listed once: as many
    /// as were paid.
    pub fn claimed_games(&self) -> (games: &Vec<ComponentAddress>)
        ensures
            keys_of(games@) == self@.claimed,
            distinct(games@),
            self@.claimed.finite(),
            self@.claimed.len() == games@.len(),
    {
        proof {
            use_type_invariant(self);
            lemma_keys_of_count(self.claimed_games@);
        }
        &self.claimed_games
    }
}

} // verus!
