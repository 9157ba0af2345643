//! The external swap pool service: unpacking a pool account's recorded
//! state, consumed from the outside.

use vstd::prelude::*;

use solana_program::program_pack::Pack;

use crate::address::Address;

verus! {

/// Byte length of a packed swap pool state, after the one-byte leading
/// discriminant of the pool account buffer.
pub const SWAP_STATE_LEN: usize = 323;

/// Whether bytes parse as an initialized swap pool state: they must be
/// exactly 323 bytes, marked initialized, with well-formed fee and curve
/// fields. Named rather than spelled out; the parse is a pure function of
/// the bytes.
pub uninterp spec fn swap_pool_format_ok(data: Seq<u8>) -> bool;

/// The fields this crate reads out of an unpacked swap pool state.
#[derive(Clone, Copy, Debug)]
pub struct PoolSnapshot {
    /// The pool's primary-asset token account.
    pub token_a: Address,
    /// The pool's secondary-asset token account.
    pub token_b: Address,
    /// The pool-share mint.
    pub pool_mint: Address,
    /// The primary asset's mint.
    pub token_a_mint: Address,
    /// The secondary asset's mint.
    pub token_b_mint: Address,
    /// The pool's fee account.
    pub pool_fee_account: Address,
}

/// Relies on spl_token_swap::state::SwapV1::unpack: it succeeds exactly on
/// a well-formed 323-byte state marked initialized, and the account, mint
/// and fee addresses lie at the fixed offsets below.
#[verifier::external_body]
pub(crate) fn unpack_swap_pool(data: &Vec<u8>) -> (r: Option<PoolSnapshot>)
    ensures
        match r {
            Some(p) => swap_pool_format_ok(data@) && data@.len() == 323 && p.token_a@
                == data@.subrange(34, 66) && p.token_b@ == data@.subrange(66, 98) && p.pool_mint@
                == data@.subrange(98, 130) && p.token_a_mint@ == data@.subrange(130, 162)
                && p.token_b_mint@ == data@.subrange(162, 194) && p.pool_fee_account@
                == data@.subrange(194, 226),
            None => !swap_pool_format_ok(data@),
        },
{
    match spl_token_swap::state::SwapV1::unpack(data.as_slice()) {
        Ok(s) => Some(
            PoolSnapshot {
                token_a: Address { bytes: s.token_a.to_bytes() },
                token_b: Address { bytes: s.token_b.to_bytes() },
                pool_mint: Address { bytes: s.pool_mint.to_bytes() },
                token_a_mint: Address { bytes: s.token_a_mint.to_bytes() },
                token_b_mint: Address { bytes: s.token_b_mint.to_bytes() },
                pool_fee_account: Address { bytes: s.pool_fee_account.to_bytes() },
            },
        ),
        Err(_) => None,
    }
}

} // verus!
