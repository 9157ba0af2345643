//! Derived-address authorization and cross-program validation for two
//! token-wrapping protocol instances: a single-asset wrapper ([`anchor`])
//! and a dual-asset wrapper ([`state`]) that additionally routes rewards
//! through an external swap pool.
//!
//! Before any privileged operation may mutate state, every account reference
//! supplied by an untrusted caller must be proven to be the exact,
//! cryptographically pinned account for its role. The validators here are the
//! sole barrier against account-substitution attacks: each one carries a
//! contract that says exactly on which inputs it accepts and which error it
//! returns otherwise.

pub mod account;
pub mod address;
pub mod codec;
pub mod derivation;
pub mod anchor;
pub mod error;
pub mod options;
pub mod pool;
pub mod state;
pub mod token;
