//! The error taxonomy of the validation layer.
//!
//! Every error is terminal: a single failing check aborts the whole
//! privileged operation, and nothing is retried inside this crate.

use vstd::prelude::*;

use crate::address::Address;
use crate::derivation::Role;

verus! {

/// Why a validation check rejected its input.
#[derive(Clone, Copy, Debug, PartialEq, Eq)]
pub enum ValidationError {
    /// A candidate account does not sit at the derived address pinned to its
    /// role. Carries the role, the address that was expected, and the address
    /// that was found, for diagnostics.
    InvalidDerivedAccount { role: Role, expected: Address, found: Address },
    /// An account is owned by a foreign program.
    InvalidAccountOwner,
    /// An account payload does not unpack into a token-account structure.
    InvalidAccountFormat,
    /// A token account or mint account carries the wrong mint.
    InvalidMint,
    /// The supplied rewards destination is not the configured one.
    InvalidRewardsDestination,
    /// The supplied pool account is not the configured swap pool instance.
    WrongExternalPoolInstance,
    /// A field recorded in the swap pool state disagrees with the supplied
    /// account bundle.
    WrongExternalPoolParameters,
    /// The pool account buffer does not unpack into a swap pool state.
    PoolUnpackError,
    /// A record buffer does not have the fixed serialized length of its
    /// record layout.
    SchemaMismatch,
    /// The seeds for a derived role admit no valid capability address. For
    /// roles derived solely from program-controlled inputs this is an
    /// internal invariant violation, not a recoverable condition.
    AddressDerivationFailed,
}

} // verus!
