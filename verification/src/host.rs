//! What the robot asks of its host: who is calling, and what time it is.
//!
//! Neither answer is a function of anything the robot holds, so nothing is
//! claimed of either. A host that has no gas left for a question ends the
//! whole call in place of an answer; what the robot's operations promise,
//! they promise of the calls that the host lets return.

use near_sdk::AccountId;
use vstd::prelude::*;

verus! {

/// The host's account identifier, `near_sdk::AccountId`. The robot stores
/// and hands out such identifiers and never looks inside one.
#[verifier::external_type_specification]
#[verifier::external_body]
pub struct ExAccountId(AccountId);

/// `near_sdk::env::block_timestamp`: the timestamp of the block in which the
/// current call runs, in nanoseconds. Nothing is claimed of the value.
pub assume_specification[ near_sdk::env::block_timestamp ]() -> (now: u64);

/// `near_sdk::env::predecessor_account_id`: the account that made the
/// current call. Nothing is claimed of the value. The function itself ends
/// the call where what the host hands over is no account identifier.
pub assume_specification[ near_sdk::env::predecessor_account_id ]() -> (caller: AccountId);

/// `Clone` for `near_sdk::AccountId`, which is derived: the copy is the same
/// identifier.
pub assume_specification[ <AccountId as Clone>::clone ](id: &AccountId) -> (copy: AccountId)
    ensures
        copy == *id,
;

} // verus!
