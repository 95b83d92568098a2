//! The dice. Every face is an arithmetic reduction of one ledger timestamp,
//! so anybody who knows the timestamp knows the outcome: this is a
//! demonstration source of chance and not a secure one.

use vstd::prelude::*;

verus! {

/// Stride by which the timestamp is divided for the first die of player one.
pub const PLAYER1_FIRST_STRIDE: u64 = 1;

/// Stride for the second die of player one.
pub const PLAYER1_SECOND_STRIDE: u64 = 7;

/// Stride for the first die of player two.
pub const PLAYER2_FIRST_STRIDE: u64 = 13;

/// Stride for the second die of player two.
pub const PLAYER2_SECOND_STRIDE: u64 = 17;

/// The face, from 1 to 6, that a die shows at `timestamp` when it reads the
/// timestamp in steps of `stride`.
pub open spec fn die_face(timestamp: u64, stride: u64) -> int {
    (timestamp as int / stride as int) % 6 + 1
}

/// Sum of the two dice of player one at `timestamp`.
pub open spec fn player1_roll(timestamp: u64) -> int {
    die_face(timestamp, PLAYER1_FIRST_STRIDE) + die_face(timestamp, PLAYER1_SECOND_STRIDE)
}

/// Sum of the two dice of player two at `timestamp`.
pub open spec fn player2_roll(timestamp: u64) -> int {
    die_face(timestamp, PLAYER2_FIRST_STRIDE) + die_face(timestamp, PLAYER2_SECOND_STRIDE)
}

/// A sum that two six-sided dice can show.
pub open spec fn is_dice_sum(roll: int) -> bool {
    2 <= roll <= 12
}

fn throw_die(timestamp: u64, stride: u64) -> (face: u64)
    requires
        stride > 0,
    ensures
        face == die_face(timestamp, stride),
        1 <= face <= 6,
{
    (timestamp / stride) % 6 + 1
}

/// Rolls two dice for each player at `timestamp` and returns the two sums,
/// player one's first.
pub fn roll_dice(timestamp: u64) -> (rolls: (u64, u64))
    ensures
        rolls.0 == player1_roll(timestamp),
        rolls.1 == player2_roll(timestamp),
        is_dice_sum(rolls.0 as int),
        is_dice_sum(rolls.1 as int),
{
    let first: u64 = throw_die(timestamp, PLAYER1_FIRST_STRIDE) + throw_die(
        timestamp,
        PLAYER1_SECOND_STRIDE,
    );
    let second: u64 = throw_die(timestamp, PLAYER2_FIRST_STRIDE) + throw_die(
        timestamp,
        PLAYER2_SECOND_STRIDE,
    );
    (first, second)
}

} // verus!
