//! Caller-supplied account snapshots.

use vstd::prelude::*;

use crate::address::Address;

verus! {

/// A snapshot of an account reference, read from the untrusted caller for
/// one validation pass: the account's own address, the program that owns
/// it, and its raw payload. Ephemeral; never persisted by this crate.
#[derive(Debug)]
pub struct AccountSnapshot {
    /// The address the account sits at.
    pub address: Address,
    /// The program recorded as the account's owner.
    pub owner: Address,
    /// The account's raw data.
    pub data: Vec<u8>,
}

} // verus!
