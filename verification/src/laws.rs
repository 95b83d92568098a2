//! What holds of the registry over whole histories of calls, proved from the
//! transitions that the operations are specified by.
//!
//! A history is a sequence of [`Call`]s. [`step`] gives the state after one
//! call, in the words of the operations' own contracts: `create`, `join`,
//! `play` and `failure` of [`RegistryState`].

use crate::dice::{die_face, is_dice_sum, player1_roll, player2_roll};
use crate::game::{Game, GameError};
use crate::identity::Identity;
use crate::registry::{GameBook, RegistryState};
use soroban_sdk::Address;
use vstd::prelude::*;

verus! {

/// One call on the registry, with everything that decides its effect.
pub enum Call {
    /// `create_game` for `player1`.
    Create { player1: Address, stake_amount: i128, authenticated: bool },
    /// `join_game` for `player2`.
    Join { game_id: u64, player2: Address, authenticated: bool },
    /// `play_game` while the ledger's clock shows `timestamp`.
    Play { game_id: u64, timestamp: u64 },
    /// `view_game`.
    View { game_id: u64 },
}

impl Call {
    /// The call succeeds on a registry in state `state`.
    pub open spec fn succeeds(self, state: RegistryState) -> bool {
        match self {
            Call::Create { authenticated, .. } => authenticated,
            Call::Join { game_id, authenticated, .. } => authenticated && state.failure(game_id)
                is None,
            Call::Play { game_id, .. } => state.failure(game_id) is None,
            Call::View { .. } => true,
        }
    }

    /// The call opens a game.
    pub open spec fn creates(self) -> bool {
        self matches Call::Create { authenticated, .. } && authenticated
    }
}

/// The state that `call` leaves a registry in: a call that fails leaves it
/// as it was, and so does a read.
pub open spec fn step(state: RegistryState, call: Call) -> RegistryState {
    if !call.succeeds(state) {
        state
    } else {
        match call {
            Call::Create { player1, stake_amount, .. } => state.create(player1, stake_amount),
            Call::Join { game_id, player2, .. } => state.join(game_id, player2),
            Call::Play { game_id, timestamp } => state.play(game_id, timestamp),
            Call::View { .. } => state,
        }
    }
}

/// The state after all of `calls`, made in order on a registry in `state`.
pub open spec fn run(state: RegistryState, calls: Seq<Call>) -> RegistryState
    decreases calls.len(),
{
    if calls.len() == 0 {
        state
    } else {
        step(run(state, calls.drop_last()), calls.last())
    }
}

/// How many of `calls` open a game.
pub open spec fn creations(calls: Seq<Call>) -> nat
    decreases calls.len(),
{
    if calls.len() == 0 {
        0
    } else {
        creations(calls.drop_last()) + (if calls.last().creates() {
            1nat
        } else {
            0nat
        })
    }
}

/// Every call keeps the registry's invariant, never touches the counter
/// unless it opens a game, and then raises it by one.
pub proof fn law_step_keeps_invariant(state: RegistryState, call: Call)
    requires
        state.inv(),
        call.creates() ==> state.game_count < u64::MAX,
    ensures
        step(state, call).inv(),
        step(state, call).game_count == state.game_count + (if call.creates() {
            1int
        } else {
            0int
        }),
{
    let after = step(state, call);
    assert forall|id: u64| #[trigger] after.games.contains_key(id) implies RegistryState::admits(
        after.game_count,
        GameBook::Game(id),
        after.games[id],
    ) by {
        if state.games.contains_key(id) {
            assert(RegistryState::admits(state.game_count, GameBook::Game(id), state.games[id]));
        }
    }
}

/// Every history keeps the registry's invariant, and the counter ends as
/// many above its start as games were opened.
pub proof fn law_run_keeps_invariant(state: RegistryState, calls: Seq<Call>)
    requires
        state.inv(),
        state.game_count + creations(calls) <= u64::MAX,
    ensures
        run(state, calls).inv(),
        run(state, calls).game_count == state.game_count + creations(calls),
    decreases calls.len(),
{
    if calls.len() > 0 {
        law_run_keeps_invariant(state, calls.drop_last());
        law_step_keeps_invariant(run(state, calls.drop_last()), calls.last());
    }
}

/// Identifiers are handed out in order, without gaps and without reuse:
/// after any history on a new registry, the next game that is opened gets
/// the number of games opened so far, plus one. Calls that fail, joins,
/// resolutions and reads take no identifier.
pub proof fn law_identifiers_count_up(calls: Seq<Call>, player1: Address, stake_amount: i128)
    requires
        creations(calls) < u64::MAX,
    ensures
        run(RegistryState::empty(), calls).next_id() == creations(calls) + 1,
        run(RegistryState::empty(), calls).create(player1, stake_amount).game_count == creations(
            calls,
        ) + 1,
{
    law_run_keeps_invariant(RegistryState::empty(), calls);
}

/// An identifier that was never handed out shows the record that stands for
/// "no such game": identifier 0, every identity unset, stake and rolls zero,
/// not completed.
pub proof fn law_unissued_identifier_shows_absent(calls: Seq<Call>, game_id: u64)
    requires
        creations(calls) <= u64::MAX,
        game_id == 0 || game_id > creations(calls),
    ensures
        run(RegistryState::empty(), calls).view_game(game_id) == Game::absent(),
        run(RegistryState::empty(), calls).failure(game_id) == Some(GameError::NotFound),
        Game::absent().game_id == 0,
        Game::absent().player1 is Nobody,
        Game::absent().player2 is Nobody,
        Game::absent().winner is Nobody,
        Game::absent().stake_amount == 0,
        Game::absent().player1_roll == 0,
        Game::absent().player2_roll == 0,
        !Game::absent().is_completed,
{
    law_run_keeps_invariant(RegistryState::empty(), calls);
}

/// A game that was just opened shows its creator, its stake, a free second
/// seat, no rolls, no winner, and is not completed.
pub proof fn law_created_game_is_open(state: RegistryState, player1: Address, stake_amount: i128)
    requires
        state.inv(),
        state.game_count < u64::MAX,
    ensures
        ({
            let game = state.create(player1, stake_amount).view_game(state.next_id());
            &&& game.game_id == state.next_id()
            &&& game.game_id >= 1
            &&& game.player1 == Identity::Account(player1)
            &&& game.player2 is Pending
            &&& game.player2.is_unset()
            &&& game.stake_amount == stake_amount
            &&& game.player1_roll == 0
            &&& game.player2_roll == 0
            &&& game.winner is Nobody
            &&& !game.is_completed
        }),
{
}

/// Joining an open game seats the joiner and leaves the game open to be
/// joined again; a second join replaces the first joiner.
pub proof fn law_join_overwrites(
    state: RegistryState,
    game_id: u64,
    first: Address,
    second: Address,
)
    requires
        state.inv(),
        state.failure(game_id) is None,
    ensures
        state.join(game_id, first).view_game(game_id).player2 == Identity::Account(first),
        state.join(game_id, first).failure(game_id) is None,
        state.join(game_id, first).join(game_id, second).view_game(game_id).player2
            == Identity::Account(second),
{
}

/// Which error a join or a resolution meets: `NotFound` exactly when no
/// record is stored under the identifier, `AlreadyCompleted` exactly when
/// the stored game is resolved. Resolving closes the game: whatever is tried
/// on it next meets `AlreadyCompleted`.
pub proof fn law_resolution_is_terminal(state: RegistryState, game_id: u64, timestamp: u64)
    requires
        state.inv(),
    ensures
        state.failure(game_id) == Some(GameError::NotFound) <==> !state.games.contains_key(game_id),
        state.failure(game_id) == Some(GameError::AlreadyCompleted) <==> state.games.contains_key(
            game_id,
        ) && state.games[game_id].is_completed,
        state.failure(game_id) is None ==> state.play(game_id, timestamp).failure(game_id) == Some(
            GameError::AlreadyCompleted,
        ),
{
    if state.games.contains_key(game_id) {
        assert(RegistryState::admits(
            state.game_count,
            GameBook::Game(game_id),
            state.games[game_id],
        ));
    }
}

/// A resolved game is completed, both rolls are sums of two dice, and the
/// winner is the player with the strictly higher roll, or the tie marker
/// when the rolls are equal. Players and stake are as they were.
pub proof fn law_resolved_game(state: RegistryState, game_id: u64, timestamp: u64)
    requires
        state.inv(),
        state.failure(game_id) is None,
    ensures
        ({
            let before = state.view_game(game_id);
            let game = state.play(game_id, timestamp).view_game(game_id);
            &&& game.is_completed
            &&& is_dice_sum(game.player1_roll as int)
            &&& is_dice_sum(game.player2_roll as int)
            &&& game.player1_roll > game.player2_roll ==> game.winner == game.player1
            &&& game.player2_roll > game.player1_roll ==> game.winner == game.player2
            &&& game.player1_roll == game.player2_roll ==> game.winner is Tie
            &&& game.game_id == game_id
            &&& game.player1 == before.player1
            &&& game.player2 == before.player2
            &&& game.stake_amount == before.stake_amount
        }),
{
}

/// At every timestamp each face lies between 1 and 6, and so each roll
/// between 2 and 12.
pub proof fn law_rolls_are_dice_sums(timestamp: u64, stride: u64)
    requires
        stride > 0,
    ensures
        1 <= die_face(timestamp, stride) <= 6,
        is_dice_sum(player1_roll(timestamp)),
        is_dice_sum(player2_roll(timestamp)),
{
}

/// The dice read nothing but the timestamp: at one timestamp any two games
/// get the same rolls, which are the sums of the four fixed reductions.
pub proof fn law_dice_follow_the_timestamp(first: Game, second: Game, timestamp: u64)
    ensures
        first.resolved(timestamp).player1_roll == second.resolved(timestamp).player1_roll,
        first.resolved(timestamp).player2_roll == second.resolved(timestamp).player2_roll,
        first.resolved(timestamp).player1_roll == (timestamp % 6 + 1) + ((timestamp / 7) % 6 + 1),
        first.resolved(timestamp).player2_roll == ((timestamp / 13) % 6 + 1) + ((timestamp / 17)
            % 6 + 1),
        first.player1 == second.player1 && first.player2 == second.player2 ==> first.resolved(
            timestamp,
        ).winner == second.resolved(timestamp).winner,
{
}

/// No call removes a record or changes its identifier, its creator or its
/// stake; a seat that was taken is never free again; and no call changes
/// anything of a game that is resolved.
pub proof fn law_step_keeps_records(state: RegistryState, call: Call, game_id: u64)
    requires
        state.inv(),
        call.creates() ==> state.game_count < u64::MAX,
        state.games.contains_key(game_id),
    ensures
        step(state, call).games.contains_key(game_id),
        step(state, call).games[game_id].game_id == game_id,
        step(state, call).games[game_id].player1 == state.games[game_id].player1,
        step(state, call).games[game_id].stake_amount == state.games[game_id].stake_amount,
        state.games[game_id].player2 is Account ==> step(state, call).games[game_id].player2
            is Account,
        state.games[game_id].is_completed ==> step(state, call).games[game_id]
            == state.games[game_id],
{
    assert(RegistryState::admits(state.game_count, GameBook::Game(game_id), state.games[game_id]));
}

/// Through any history a record stays, with its identifier, its creator and
/// its stake; a seat that was taken stays taken; and once a game is resolved,
/// its rolls, its winner and all the rest of it stay as they are.
pub proof fn law_history_keeps_records(state: RegistryState, calls: Seq<Call>, game_id: u64)
    requires
        state.inv(),
        state.game_count + creations(calls) <= u64::MAX,
        state.games.contains_key(game_id),
    ensures
        run(state, calls).games.contains_key(game_id),
        run(state, calls).games[game_id].game_id == game_id,
        run(state, calls).games[game_id].player1 == state.games[game_id].player1,
        run(state, calls).games[game_id].stake_amount == state.games[game_id].stake_amount,
        state.games[game_id].player2 is Account ==> run(state, calls).games[game_id].player2
            is Account,
        state.games[game_id].is_completed ==> run(state, calls).games[game_id]
            == state.games[game_id],
    decreases calls.len(),
{
    if calls.len() > 0 {
        law_history_keeps_records(state, calls.drop_last(), game_id);
        law_run_keeps_invariant(state, calls.drop_last());
        law_step_keeps_records(run(state, calls.drop_last()), calls.last(), game_id);
    }
}

} // verus!
