//! One game record and the three things that can happen to it: it is opened,
//! a second player takes a seat, and the dice decide it.

use crate::dice::{is_dice_sum, player1_roll, player2_roll, roll_dice};
use crate::identity::Identity;
use soroban_sdk::Address;
use vstd::prelude::*;

verus! {

/// Why an operation on a game was refused.
#[derive(Clone, Copy, Debug, PartialEq, Eq, Structural)]
pub enum GameError {
    /// The caller could not prove control of the identity it claimed.
    AuthenticationFailure,
    /// No game is recorded under the identifier.
    NotFound,
    /// The game has been resolved and is closed for good.
    AlreadyCompleted,
}

impl GameError {
    /// The sentence that reports this error.
    pub open spec fn text(self) -> Seq<char> {
        match self {
            GameError::AuthenticationFailure => "Authentication failed!"@,
            GameError::NotFound => "Game not found!"@,
            GameError::AlreadyCompleted => "Game already completed!"@,
        }
    }

    /// Returns the sentence that reports this error.
    pub fn message(&self) -> (text: &'static str)
        ensures
            text@ == self.text(),
    {
        match self {
            GameError::AuthenticationFailure => "Authentication failed!",
            GameError::NotFound => "Game not found!",
            GameError::AlreadyCompleted => "Game already completed!",
        }
    }
}

/// The record of one game.
#[derive(Debug, PartialEq, Eq)]
pub struct Game {
    /// Identifier of the game, 1 or more; 0 marks a record that does not exist.
    pub game_id: u64,
    /// Who opened the game.
    pub player1: Identity,
    /// Who joined it, or `Identity::Pending` while the seat is free.
    pub player2: Identity,
    /// What each player is expected to put in. Any value is accepted.
    pub stake_amount: i128,
    /// Sum of player one's two dice; 0 until the game is resolved.
    pub player1_roll: u64,
    /// Sum of player two's two dice; 0 until the game is resolved.
    pub player2_roll: u64,
    /// Who won; `Identity::Nobody` until the game is resolved.
    pub winner: Identity,
    /// Whether the dice have been thrown. Never goes back to false.
    pub is_completed: bool,
}

/// The winner that two rolls decide: the player with the strictly higher
/// roll, and `Identity::Tie` when the rolls are equal.
pub open spec fn winner_of(
    player1: Identity,
    player2: Identity,
    roll1: int,
    roll2: int,
) -> Identity {
    if roll1 > roll2 {
        player1
    } else if roll2 > roll1 {
        player2
    } else {
        Identity::Tie
    }
}

impl Game {
    /// The record that stands for "no such game": identifier 0, every
    /// identity unset, everything else zero.
    pub open spec fn absent() -> Game {
        Game {
            game_id: 0,
            player1: Identity::Nobody,
            player2: Identity::Nobody,
            stake_amount: 0,
            player1_roll: 0,
            player2_roll: 0,
            winner: Identity::Nobody,
            is_completed: false,
        }
    }

    /// The record of a game that `player1` has just opened under `game_id`.
    pub open spec fn opened(game_id: u64, player1: Address, stake_amount: i128) -> Game {
        Game {
            game_id,
            player1: Identity::Account(player1),
            player2: Identity::Pending,
            stake_amount,
            player1_roll: 0,
            player2_roll: 0,
            winner: Identity::Nobody,
            is_completed: false,
        }
    }

    /// Why this record takes neither a player nor the dice, if it does not:
    /// it stands for a missing game, or the game is over.
    pub open spec fn rejection(self) -> Option<GameError> {
        if self.game_id == 0 {
            Some(GameError::NotFound)
        } else if self.is_completed {
            Some(GameError::AlreadyCompleted)
        } else {
            None
        }
    }

    /// This record with `player2` in the second seat, whoever sat there.
    pub open spec fn joined(self, player2: Address) -> Game {
        Game { player2: Identity::Account(player2), ..self }
    }

    /// This record after the dice were thrown at `timestamp`.
    pub open spec fn resolved(self, timestamp: u64) -> Game {
        Game {
            player1_roll: player1_roll(timestamp) as u64,
            player2_roll: player2_roll(timestamp) as u64,
            winner: winner_of(
                self.player1,
                self.player2,
                player1_roll(timestamp),
                player2_roll(timestamp),
            ),
            is_completed: true,
            ..self
        }
    }

    /// The rolls fit the state of the game: two dice sums once it is
    /// resolved, zero before.
    pub open spec fn rolls_settled(self) -> bool {
        if self.is_completed {
            is_dice_sum(self.player1_roll as int) && is_dice_sum(self.player2_roll as int)
        } else {
            self.player1_roll == 0 && self.player2_roll == 0
        }
    }

    /// Builds the record that stands for "no such game".
    pub fn missing() -> (game: Game)
        ensures
            game == Game::absent(),
    {
        Game {
            game_id: 0,
            player1: Identity::Nobody,
            player2: Identity::Nobody,
            stake_amount: 0,
            player1_roll: 0,
            player2_roll: 0,
            winner: Identity::Nobody,
            is_completed: false,
        }
    }

    /// Builds the record of a game that `player1` opens under `game_id`.
    pub fn open(game_id: u64, player1: Address, stake_amount: i128) -> (game: Game)
        ensures
            game == Game::opened(game_id, player1, stake_amount),
    {
        Game {
            game_id,
            player1: Identity::Account(player1),
            player2: Identity::Pending,
            stake_amount,
            player1_roll: 0,
            player2_roll: 0,
            winner: Identity::Nobody,
            is_completed: false,
        }
    }

    /// Seats `player2`. A player who already sat there is replaced, and
    /// nothing stops `player2` from being the player who opened the game.
    ///
    /// Refused, with the record untouched, when the record stands for a
    /// missing game or the game is over.
    pub fn join(&mut self, player2: Address) -> (outcome: Result<(), GameError>)
        ensures
            outcome == (match old(self).rejection() {
                Some(error) => Err::<(), GameError>(error),
                None => Ok(()),
            }),
            *final(self) == (if outcome is Ok {
                old(self).joined(player2)
            } else {
                *old(self)
            }),
    {
        if self.game_id == 0 {
            return Err(GameError::NotFound);
        }
        if self.is_completed {
            return Err(GameError::AlreadyCompleted);
        }
        self.player2 = Identity::Account(player2);
        Ok(())
    }

    /// Throws the dice at `timestamp`, records both rolls and the winner,
    /// closes the game and returns the winner. A game that nobody joined is
    /// resolved like any other, with the free seat as player two.
    ///
    /// Refused, with the record untouched, when the record stands for a
    /// missing game or the game is over.
    pub fn resolve(&mut self, timestamp: u64) -> (outcome: Result<Identity, GameError>)
        ensures
            outcome == (match old(self).rejection() {
                Some(error) => Err::<Identity, GameError>(error),
                None => Ok(old(self).resolved(timestamp).winner),
            }),
            *final(self) == (if outcome is Ok {
                old(self).resolved(timestamp)
            } else {
                *old(self)
            }),
    {
        if self.game_id == 0 {
            return Err(GameError::NotFound);
        }
        if self.is_completed {
            return Err(GameError::AlreadyCompleted);
        }
        let (roll1, roll2): (u64, u64) = roll_dice(timestamp);
        self.player1_roll = roll1;
        self.player2_roll = roll2;
        if roll1 > roll2 {
            self.winner = self.player1.clone();
        } else if roll2 > roll1 {
            self.winner = self.player2.clone();
        } else {
            self.winner = Identity::Tie;
        }
        self.is_completed = true;
        Ok(self.winner.clone())
    }

    /// Tells whether the rolls fit the state of the game.
    pub fn has_settled_rolls(&self) -> (settled: bool)
        ensures
            settled == self.rolls_settled(),
    {
        if self.is_completed {
            2 <= self.player1_roll && self.player1_roll <= 12 && 2 <= self.player2_roll
                && self.player2_roll <= 12
        } else {
            self.player1_roll == 0 && self.player2_roll == 0
        }
    }
}

impl Clone for Game {
    fn clone(&self) -> (copy: Self)
        ensures
            copy == *self,
    {
        Game {
            game_id: self.game_id,
            player1: self.player1.clone(),
            player2: self.player2.clone(),
            stake_amount: self.stake_amount,
            player1_roll: self.player1_roll,
            player2_roll: self.player2_roll,
            winner: self.winner.clone(),
            is_completed: self.is_completed,
        }
    }
}

} // verus!
