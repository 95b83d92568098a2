//! The registry: every game record under its key, and the counter that hands
//! out identifiers. One call runs at a time and either takes effect as a
//! whole or leaves the registry as it was; the host that drives the registry
//! is relied upon to admit calls one by one.

use crate::dice::is_dice_sum;
use crate::game::{winner_of, Game, GameError};
use crate::host::ledger_timestamp;
use crate::identity::Identity;
use soroban_sdk::{Address, Env};
use std::collections::HashMap;
use vstd::prelude::*;

verus! {

broadcast use vstd::std_specs::hash::group_hash_axioms;

/// Key of a registry entry.
#[derive(Clone, Copy, Debug, PartialEq, Eq, Structural)]
pub enum GameBook {
    /// The record of the game with this identifier.
    Game(u64),
}

impl GameBook {
    /// The identifier that the key names.
    pub open spec fn id(self) -> u64 {
        match self {
            GameBook::Game(id) => id,
        }
    }

    /// Returns the identifier that the key names.
    pub fn game_id(&self) -> (id: u64)
        ensures
            id == self.id(),
    {
        match self {
            GameBook::Game(id) => *id,
        }
    }
}

/// What a registry holds, as mathematics: the last identifier handed out and
/// the records by identifier.
pub struct RegistryState {
    /// The last identifier handed out; 0 before the first game.
    pub game_count: u64,
    /// The records, each under the identifier of its game.
    pub games: Map<u64, Game>,
}

impl RegistryState {
    /// The registry before the first game.
    pub open spec fn empty() -> RegistryState {
        RegistryState { game_count: 0, games: Map::empty() }
    }

    /// What `record` must satisfy to be kept under `key` in a registry that
    /// has handed out `game_count` identifiers: it carries the identifier
    /// that the key names, that identifier was handed out, and the rolls
    /// are dice sums if the game is resolved and zero if it is not.
    pub open spec fn admits(game_count: u64, key: GameBook, record: Game) -> bool {
        &&& record.game_id == key.id()
        &&& 1 <= key.id() <= game_count
        &&& record.rolls_settled()
    }

    /// The registry that holds `entry` alone, if there is one, after
    /// `game_count` identifiers were handed out.
    pub open spec fn snapshot(game_count: u64, entry: Option<(GameBook, Game)>) -> RegistryState {
        RegistryState {
            game_count,
            games: match entry {
                Some((key, record)) => Map::empty().insert(key.id(), record),
                None => Map::empty(),
            },
        }
    }

    /// What holds of every registry: a record is stored under its own
    /// identifier, the identifier is one that was handed out, and the rolls
    /// are dice sums from the moment the game is resolved and zero before.
    pub open spec fn inv(self) -> bool {
        forall|id: u64| #[trigger]
            self.games.contains_key(id) ==> RegistryState::admits(
                self.game_count,
                GameBook::Game(id),
                self.games[id],
            )
    }

    /// The record that a reader is shown for `game_id`: the stored one, or
    /// the record that stands for "no such game".
    pub open spec fn view_game(self, game_id: u64) -> Game {
        if self.games.contains_key(game_id) {
            self.games[game_id]
        } else {
            Game::absent()
        }
    }

    /// Why the game `game_id` takes neither a player nor the dice, if it
    /// does not.
    pub open spec fn failure(self, game_id: u64) -> Option<GameError> {
        self.view_game(game_id).rejection()
    }

    /// The identifier that the next game gets.
    pub open spec fn next_id(self) -> u64 {
        (self.game_count + 1) as u64
    }

    /// The registry after `player1` opened a game for `stake_amount`.
    pub open spec fn create(self, player1: Address, stake_amount: i128) -> RegistryState {
        RegistryState {
            game_count: self.next_id(),
            games: self.games.insert(
                self.next_id(),
                Game::opened(self.next_id(), player1, stake_amount),
            ),
        }
    }

    /// The registry after `player2` took the second seat of game `game_id`.
    pub open spec fn join(self, game_id: u64, player2: Address) -> RegistryState {
        RegistryState {
            games: self.games.insert(game_id, self.view_game(game_id).joined(player2)),
            ..self
        }
    }

    /// The registry after game `game_id` was resolved at `timestamp`.
    pub open spec fn play(self, game_id: u64, timestamp: u64) -> RegistryState {
        RegistryState {
            games: self.games.insert(game_id, self.view_game(game_id).resolved(timestamp)),
            ..self
        }
    }
}

/// The registry of games: the counter and the records, with the operations
/// that open, join, resolve and show a game.
///
/// `self@` is what the registry holds. Whatever is done to a registry,
/// `self@.inv()` holds of it.
pub struct DiceGameContract {
    game_count: u64,
    games: HashMap<u64, Game>,
}

impl View for DiceGameContract {
    type V = RegistryState;

    closed spec fn view(&self) -> RegistryState {
        RegistryState { game_count: self.game_count, games: self.games@ }
    }
}

impl DiceGameContract {
    /// Every registry that exists holds what `RegistryState::inv` says.
    #[verifier::type_invariant]
    spec fn well_formed(self) -> bool {
        self@.inv()
    }

    /// Makes the registry before the first game.
    pub fn new() -> (registry: DiceGameContract)
        ensures
            registry@ == RegistryState::empty(),
            registry@.inv(),
    {
        DiceGameContract { game_count: 0, games: HashMap::new() }
    }

    /// Makes a registry from what a store holds: the counter, and the one
    /// entry that the coming call touches, if the store has it. Returns
    /// `None` exactly when the entry cannot belong to a registry with this
    /// counter.
    pub fn restore(
        game_count: u64,
        entry: Option<(GameBook, Game)>,
    ) -> (restored: Option<DiceGameContract>)
        ensures
            restored is Some <==> (entry matches Some((key, record)) ==> RegistryState::admits(
                game_count,
                key,
                record,
            )),
            restored matches Some(registry) ==> registry@.inv() && registry@
                == RegistryState::snapshot(game_count, entry),
    {
        let mut games: HashMap<u64, Game> = HashMap::new();
        match entry {
            Some((key, record)) => {
                let game_id: u64 = key.game_id();
                if record.game_id != game_id || game_id < 1 || game_id > game_count
                    || !record.has_settled_rolls() {
                    return None;
                }
                games.insert(game_id, record);
            },
            None => {},
        }
        Some(DiceGameContract { game_count, games })
    }

    /// Stores `record` under `game_id`, in place of what was there, and sets
    /// the counter to `game_count`, which is no lower than it was.
    fn put(&mut self, game_count: u64, game_id: u64, record: Game)
        requires
            old(self)@.game_count <= game_count,
            RegistryState::admits(game_count, GameBook::Game(game_id), record),
        ensures
            final(self)@ == (RegistryState {
                game_count,
                games: old(self)@.games.insert(game_id, record),
            }),
            final(self)@.inv(),
    {
        proof {
            use_type_invariant(&*self);
        }
        // The records are taken out while they change, so that the registry
        // is whole at every point at which it can be seen.
        let mut games: HashMap<u64, Game> = HashMap::new();
        std::mem::swap(&mut self.games, &mut games);
        games.insert(game_id, record);
        proof {
            let before = old(self)@;
            assert forall|id: u64| #[trigger] games@.contains_key(id) implies RegistryState::admits(
                game_count,
                GameBook::Game(id),
                games@[id],
            ) by {
                if id != game_id {
                    assert(RegistryState::admits(
                        before.game_count,
                        GameBook::Game(id),
                        before.games[id],
                    ));
                }
            }
        }
        *self = DiceGameContract { game_count, games };
    }

    /// Returns the last identifier handed out; 0 before the first game.
    pub fn game_count(&self) -> (count: u64)
        ensures
            count == self@.game_count,
    {
        self.game_count
    }

    /// Returns a copy of the record stored under `key`, if there is one.
    pub fn lookup(&self, key: GameBook) -> (found: Option<Game>)
        ensures
            found == (if self@.games.contains_key(key.id()) {
                Some(self@.games[key.id()])
            } else {
                None
            }),
    {
        let id: u64 = key.game_id();
        match self.games.get(&id) {
            Some(game) => Some(game.clone()),
            None => None,
        }
    }

    /// Returns the record of game `game_id`, or the record that stands for
    /// "no such game", whose identifier is 0. Changes nothing.
    pub fn view_game(&self, game_id: u64) -> (game: Game)
        ensures
            game == self@.view_game(game_id),
            game.game_id == 0 <==> !self@.games.contains_key(game_id),
            game.game_id == 0 ==> game == Game::absent(),
            game.game_id != 0 ==> game.game_id == game_id,
            self@.inv(),
    {
        proof {
            use_type_invariant(self);
        }
        match self.lookup(GameBook::Game(game_id)) {
            Some(game) => game,
            None => Game::missing(),
        }
    }

    /// Opens a game for `player1` and returns its identifier, which is the
    /// counter plus one. The stake is recorded as given, whatever its sign.
    ///
    /// `authenticated` says whether the host confirmed that the caller
    /// controls `player1`; without that nothing happens.
    pub fn create_game(
        &mut self,
        player1: Address,
        stake_amount: i128,
        authenticated: bool,
    ) -> (outcome: Result<u64, GameError>)
        requires
            authenticated ==> old(self)@.game_count < u64::MAX,
        ensures
            final(self)@.inv(),
            outcome == (if authenticated {
                Ok::<u64, GameError>(old(self)@.next_id())
            } else {
                Err(GameError::AuthenticationFailure)
            }),
            final(self)@ == (if authenticated {
                old(self)@.create(player1, stake_amount)
            } else {
                old(self)@
            }),
    {
        proof {
            use_type_invariant(&*self);
        }
        if !authenticated {
            return Err(GameError::AuthenticationFailure);
        }
        let game_id: u64 = self.game_count + 1;
        let game = Game::open(game_id, player1, stake_amount);
        self.put(game_id, game_id, game);
        Ok(game_id)
    }

    /// Seats `player2` in game `game_id`, replacing whoever sat there.
    ///
    /// `authenticated` says whether the host confirmed that the caller
    /// controls `player2`; that is checked before the game is looked at.
    pub fn join_game(
        &mut self,
        game_id: u64,
        player2: Address,
        authenticated: bool,
    ) -> (outcome: Result<(), GameError>)
        ensures
            final(self)@.inv(),
            outcome == (if !authenticated {
                Err::<(), GameError>(GameError::AuthenticationFailure)
            } else {
                match old(self)@.failure(game_id) {
                    Some(error) => Err(error),
                    None => Ok(()),
                }
            }),
            final(self)@ == (if outcome is Ok {
                old(self)@.join(game_id, player2)
            } else {
                old(self)@
            }),
    {
        proof {
            use_type_invariant(&*self);
        }
        if !authenticated {
            return Err(GameError::AuthenticationFailure);
        }
        let mut game = self.view_game(game_id);
        match game.join(player2) {
            Ok(()) => {
                self.put(self.game_count, game_id, game);
                Ok(())
            },
            Err(error) => Err(error),
        }
    }

    /// Resolves game `game_id` with the dice that `timestamp` gives, and
    /// returns the winner. Anybody may call it.
    pub fn play_game_at(
        &mut self,
        game_id: u64,
        timestamp: u64,
    ) -> (outcome: Result<Identity, GameError>)
        ensures
            final(self)@.inv(),
            outcome == (match old(self)@.failure(game_id) {
                Some(error) => Err::<Identity, GameError>(error),
                None => Ok(old(self)@.play(game_id, timestamp).view_game(game_id).winner),
            }),
            final(self)@ == (if outcome is Ok {
                old(self)@.play(game_id, timestamp)
            } else {
                old(self)@
            }),
    {
        proof {
            use_type_invariant(&*self);
        }
        let mut game = self.view_game(game_id);
        match game.resolve(timestamp) {
            Ok(winner) => {
                self.put(self.game_count, game_id, game);
                Ok(winner)
            },
            Err(error) => Err(error),
        }
    }

    /// Resolves game `game_id` with the dice that the ledger's clock gives
    /// at the moment of the call, and returns the winner. Anybody may call
    /// it. The clock is public, so the outcome can be known beforehand.
    ///
    /// Whether the call succeeds does not depend on the clock; what the dice
    /// show does, and `play_game_at` says what they show for each timestamp.
    pub fn play_game(&mut self, env: &Env, game_id: u64) -> (outcome: Result<Identity, GameError>)
        ensures
            final(self)@.inv(),
            old(self)@.failure(game_id) matches Some(error) ==> final(self)@ == old(self)@
                && outcome == Err::<Identity, GameError>(error),
            old(self)@.failure(game_id) is None ==> exists|timestamp: u64|
                final(self)@ == #[trigger] old(self)@.play(game_id, timestamp),
            old(self)@.failure(game_id) is None ==> ({
                let game = final(self)@.view_game(game_id);
                &&& outcome == Ok::<Identity, GameError>(game.winner)
                &&& game.is_completed
                &&& is_dice_sum(game.player1_roll as int)
                &&& is_dice_sum(game.player2_roll as int)
                &&& game.winner == winner_of(
                    game.player1,
                    game.player2,
                    game.player1_roll as int,
                    game.player2_roll as int,
                )
            }),
    {
        let timestamp: u64 = ledger_timestamp(env);
        self.play_game_at(game_id, timestamp)
    }
}

} // verus!
