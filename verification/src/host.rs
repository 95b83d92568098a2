//! What the library takes from the Soroban SDK: two opaque handles and the
//! two calls it makes on them. Nothing in this module is proved; every
//! contract here is an assumption about `soroban_sdk`.

use vstd::prelude::*;

verus! {

/// `soroban_sdk::Address`: the SDK's opaque identifier of an account or of a
/// contract. The library never looks inside one; it stores them, copies them
/// and hands them back.
#[verifier::external_type_specification]
#[verifier::external_body]
pub struct ExAddress(soroban_sdk::Address);

/// `soroban_sdk::Env`: the handle to the host that a contract invocation runs
/// in. The library only reads the ledger clock through it.
#[verifier::external_type_specification]
#[verifier::external_body]
pub struct ExEnv(soroban_sdk::Env);

/// `<soroban_sdk::Address as Clone>::clone`, which the SDK derives: it copies
/// the handle field by field and calls nothing on the host. Assumed: the copy
/// is the same identifier as the one it was made from.
pub assume_specification[ <soroban_sdk::Address as Clone>::clone ](
    address: &soroban_sdk::Address,
) -> (copy: soroban_sdk::Address)
    ensures
        copy == *address,
;

/// `soroban_sdk::Env::ledger` followed by `soroban_sdk::ledger::Ledger::timestamp`:
/// the close time of the current ledger, in seconds since the Unix epoch.
/// The value belongs to the host's state, so nothing is assumed about it.
#[verifier::external_body]
pub(crate) fn ledger_timestamp(env: &soroban_sdk::Env) -> (timestamp: u64) {
    env.ledger().timestamp()
}

} // verus!
