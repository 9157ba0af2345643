//! The token ledger service: the token program's id and the token-account
//! payload parser, consumed from the outside, and the generic token-account
//! check built on them.

use vstd::prelude::*;

use solana_program::program_pack::Pack;

use crate::account::AccountSnapshot;
use crate::address::Address;
use crate::codec::u64_from_le_bytes;
use crate::error::ValidationError;

verus! {

/// Byte length of a packed token ledger account payload.
pub const TOKEN_ACCOUNT_LEN: usize = 165;

/// The token ledger program's well-known id, byte for byte.
pub open spec fn token_program_id_bytes() -> Seq<u8> {
    seq![
        6u8, 221, 246, 225, 215, 101, 161, 147, 217, 203, 225, 70, 206, 235, 121, 172, 28, 180,
        133, 237, 95, 91, 55, 145, 58, 140, 245, 133, 126, 255, 0, 169,
    ]
}

/// Relies on spl_token::id(): the constant program id of the token ledger
/// program, whose base58 form decodes to the bytes above.
#[verifier::external_body]
pub(crate) fn token_program_id() -> (r: Address)
    ensures
        r@ == token_program_id_bytes(),
{
    Address { bytes: spl_token::id().to_bytes() }
}

/// Whether 165 bytes parse as a token ledger account: the option tags and
/// the state byte must be well formed. Named rather than spelled out; the
/// parse is a pure function of the bytes.
pub uninterp spec fn token_account_format_ok(data: Seq<u8>) -> bool;

/// The fields this crate reads out of a parsed token ledger account.
#[derive(Clone, Copy, Debug)]
pub struct ParsedTokenAccount {
    /// The mint whose asset the account holds.
    pub mint: Address,
    /// The account's balance.
    pub amount: u64,
}

/// Relies on spl_token::state::Account::unpack_from_slice: it reads only the
/// first 165 bytes (and needs at least that many); the mint is bytes 0..32
/// and the balance the little-endian word at 64..72; it fails exactly on
/// payloads whose option tags or state byte are malformed.
#[verifier::external_body]
pub(crate) fn unpack_token_account(data: &Vec<u8>) -> (r: Option<ParsedTokenAccount>)
    requires
        data@.len() >= 165,
    ensures
        match r {
            Some(t) => token_account_format_ok(data@.subrange(0, 165)) && t.mint@
                == data@.subrange(0, 32) && t.amount == u64_from_le_bytes(
                data@.subrange(64, 72),
            ),
            None => !token_account_format_ok(data@.subrange(0, 165)),
        },
{
    match spl_token::state::Account::unpack_from_slice(data.as_slice()) {
        Ok(a) => Some(
            ParsedTokenAccount { mint: Address { bytes: a.mint.to_bytes() }, amount: a.amount },
        ),
        Err(_) => None,
    }
}

/// What `check_token_account` returns, as a function of the expected owner
/// and mint and of the candidate account's recorded owner and payload.
pub open spec fn token_account_check_spec(
    expected_owner: Seq<u8>,
    expected_mint: Seq<u8>,
    owner: Seq<u8>,
    data: Seq<u8>,
) -> Result<(), ValidationError> {
    if owner != expected_owner {
        Err(ValidationError::InvalidAccountOwner)
    } else if data.len() < 165 || !token_account_format_ok(data.subrange(0, 165)) {
        Err(ValidationError::InvalidAccountFormat)
    } else if data.subrange(0, 32) != expected_mint {
        Err(ValidationError::InvalidMint)
    } else {
        Ok(())
    }
}

/// Checks that `account` is genuinely owned by `expected_owner`, that its
/// payload unpacks into a token-account structure, and that the unpacked
/// mint equals `expected_mint` — in that order, returning on the first
/// failure.
pub fn check_token_account(
    expected_owner: &Address,
    expected_mint: &Address,
    account: &AccountSnapshot,
) -> (r: Result<(), ValidationError>)
    ensures
        r == token_account_check_spec(expected_owner@, expected_mint@, account.owner@, account.data@),
{
    if !account.owner.eq_address(expected_owner) {
        return Err(ValidationError::InvalidAccountOwner);
    }
    if account.data.len() < TOKEN_ACCOUNT_LEN {
        return Err(ValidationError::InvalidAccountFormat);
    }
    let parsed = match unpack_token_account(&account.data) {
        Some(t) => t,
        None => {
            return Err(ValidationError::InvalidAccountFormat);
        },
    };
    if !parsed.mint.eq_address(expected_mint) {
        return Err(ValidationError::InvalidMint);
    }
    Ok(())
}

} // verus!
