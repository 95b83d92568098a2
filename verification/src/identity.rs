//! Who sits at the table: real ledger identities and the three placeholders
//! that stand in where no real identity applies.

use soroban_sdk::Address;
use vstd::prelude::*;

verus! {

/// An identity recorded in a game.
///
/// Placeholders are variants of their own, so no real address can ever be
/// mistaken for one.
#[derive(Debug, PartialEq, Eq)]
pub enum Identity {
    /// An account or contract on the ledger.
    Account(Address),
    /// The unset marker of the second seat: nobody has joined yet.
    Pending,
    /// The unset marker used everywhere else: the winner of a game that has
    /// not been resolved, and every identity of a record that does not exist.
    Nobody,
    /// The winner recorded when both players rolled the same sum.
    Tie,
}

impl Identity {
    /// True for the two markers that mean "not set".
    pub open spec fn is_unset(self) -> bool {
        self is Pending || self is Nobody
    }
}

impl Clone for Identity {
    fn clone(&self) -> (copy: Self)
        ensures
            copy == *self,
    {
        match self {
            Identity::Account(address) => Identity::Account(address.clone()),
            Identity::Pending => Identity::Pending,
            Identity::Nobody => Identity::Nobody,
            Identity::Tie => Identity::Tie,
        }
    }
}

} // verus!
