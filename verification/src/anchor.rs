//! The single-asset wrapper's Instance Record, its fixed-layout codec, and
//! its validators.

use vstd::prelude::*;

use crate::account::AccountSnapshot;
use crate::address::{zero_address_bytes, Address};
use crate::codec::{push_address, read_address};
use crate::derivation::{
    check_derived_account, derived_check_ensures, MintAuthorityBump, ReserveAccountBump,
    ReserveAuthorityBump, Role,
};
use crate::error::ValidationError;
use crate::token::{check_token_account, token_account_check_spec, token_program_id,
    token_program_id_bytes};

verus! {

/// Size of the serialized [`Anchor`] record, in bytes.
pub const ANCHOR_LEN: usize = 99;

/// The single-asset wrapper's Instance Record.
#[verifier::ext_equal]
#[derive(Clone, Copy, Debug, PartialEq, Eq)]
pub struct Anchor {
    /// The mint address of the wrapped asset this instance issues.
    pub bsol_mint: Address,
    /// The authority owning the reserve account.
    pub reserve_authority: Address,
    /// The underlying-protocol instance address.
    pub lido: Address,
    /// Bump seed for the mint authority derived address.
    pub mint_authority_bump_seed: MintAuthorityBump,
    /// Bump seed for the reserve authority derived address.
    pub reserve_authority_bump_seed: ReserveAuthorityBump,
    /// Bump seed for the reserve account derived address.
    pub reserve_account_bump_seed: ReserveAccountBump,
}

/// The fixed-layout encoding of a record: the three addresses in order,
/// then the three bump bytes.
pub open spec fn serialize_anchor(a: Anchor) -> Seq<u8> {
    a.bsol_mint@ + a.reserve_authority@ + a.lido@ + seq![
        a.mint_authority_bump_seed.0,
        a.reserve_authority_bump_seed.0,
        a.reserve_account_bump_seed.0,
    ]
}

/// Law (exact length): every record serializes to exactly `ANCHOR_LEN`
/// bytes, whatever its field values.
pub proof fn lemma_serialize_anchor_len(a: Anchor)
    ensures
        serialize_anchor(a).len() == ANCHOR_LEN,
{
}

/// Law (round trip): the encoding is injective — two records with the same
/// serialized bytes are the same record. Together with the contracts of
/// [`Anchor::save`] and [`Anchor::load`], this gives `load(save(r)) == r`
/// for every record `r`.
pub proof fn lemma_serialize_anchor_injective(a: Anchor, b: Anchor)
    requires
        serialize_anchor(a) == serialize_anchor(b),
    ensures
        a == b,
{
    let sa = serialize_anchor(a);
    let sb = serialize_anchor(b);
    assert(a.bsol_mint@ =~= b.bsol_mint@) by {
        assert forall|i: int| 0 <= i < 32 implies a.bsol_mint@[i] == b.bsol_mint@[i] by {
            assert(sa[i] == a.bsol_mint@[i]);
            assert(sb[i] == b.bsol_mint@[i]);
        }
    }
    assert(a.reserve_authority@ =~= b.reserve_authority@) by {
        assert forall|i: int| 0 <= i < 32 implies a.reserve_authority@[i]
            == b.reserve_authority@[i] by {
            assert(sa[32 + i] == a.reserve_authority@[i]);
            assert(sb[32 + i] == b.reserve_authority@[i]);
        }
    }
    assert(a.lido@ =~= b.lido@) by {
        assert forall|i: int| 0 <= i < 32 implies a.lido@[i] == b.lido@[i] by {
            assert(sa[64 + i] == a.lido@[i]);
            assert(sb[64 + i] == b.lido@[i]);
        }
    }
    crate::address::lemma_address_view_injective(a.bsol_mint, b.bsol_mint);
    crate::address::lemma_address_view_injective(a.reserve_authority, b.reserve_authority);
    crate::address::lemma_address_view_injective(a.lido, b.lido);
    assert(sa[96] == a.mint_authority_bump_seed.0 && sb[96] == b.mint_authority_bump_seed.0);
    assert(sa[97] == a.reserve_authority_bump_seed.0 && sb[97]
        == b.reserve_authority_bump_seed.0);
    assert(sa[98] == a.reserve_account_bump_seed.0 && sb[98] == b.reserve_account_bump_seed.0);
    assert(a =~= b);
}

impl Default for Anchor {
    /// The all-zero record.
    fn default() -> (r: Anchor)
        ensures
            r.bsol_mint@ == zero_address_bytes(),
            r.reserve_authority@ == zero_address_bytes(),
            r.lido@ == zero_address_bytes(),
            r.mint_authority_bump_seed == MintAuthorityBump(0u8),
            r.reserve_authority_bump_seed == ReserveAuthorityBump(0u8),
            r.reserve_account_bump_seed == ReserveAccountBump(0u8),
    {
        Anchor {
            bsol_mint: Address::zero(),
            reserve_authority: Address::zero(),
            lido: Address::zero(),
            mint_authority_bump_seed: MintAuthorityBump(0),
            reserve_authority_bump_seed: ReserveAuthorityBump(0),
            reserve_account_bump_seed: ReserveAccountBump(0),
        }
    }
}

impl Anchor {
    /// The record's fixed-length encoding, as a fresh buffer.
    pub fn to_vec(&self) -> (r: Vec<u8>)
        ensures
            r@ == serialize_anchor(*self),
    {
        let mut out: Vec<u8> = Vec::new();
        push_address(&mut out, &self.bsol_mint);
        push_address(&mut out, &self.reserve_authority);
        push_address(&mut out, &self.lido);
        out.push(self.mint_authority_bump_seed.0);
        out.push(self.reserve_authority_bump_seed.0);
        out.push(self.reserve_account_bump_seed.0);
        proof {
            assert(out@ =~= serialize_anchor(*self));
        }
        out
    }

    /// Writes the record's fixed-length encoding into `buffer` in place.
    /// Fails with `SchemaMismatch` if the buffer is not pre-sized to the
    /// record's exact serialized length.
    pub fn save(&self, buffer: &mut Vec<u8>) -> (r: Result<(), ValidationError>)
        ensures
            old(buffer)@.len() == ANCHOR_LEN ==> r == Ok::<(), ValidationError>(())
                && final(buffer)@ == serialize_anchor(*self),
            old(buffer)@.len() != ANCHOR_LEN ==> r == Err::<(), ValidationError>(
                ValidationError::SchemaMismatch,
            ) && final(buffer)@ == old(buffer)@,
    {
        if buffer.len() != ANCHOR_LEN {
            return Err(ValidationError::SchemaMismatch);
        }
        let encoded = self.to_vec();
        buffer.clear();
        buffer.append(&mut { encoded });
        Ok(())
    }

    /// Parses a record from its fixed-length encoding. Fails with
    /// `SchemaMismatch` exactly when the buffer does not have that length.
    pub fn load(buffer: &Vec<u8>) -> (r: Result<Anchor, ValidationError>)
        ensures
            match r {
                Ok(a) => buffer@.len() == ANCHOR_LEN && serialize_anchor(a) == buffer@,
                Err(e) => buffer@.len() != ANCHOR_LEN && e == ValidationError::SchemaMismatch,
            },
    {
        if buffer.len() != ANCHOR_LEN {
            return Err(ValidationError::SchemaMismatch);
        }
        let a = Anchor {
            bsol_mint: read_address(buffer, 0),
            reserve_authority: read_address(buffer, 32),
            lido: read_address(buffer, 64),
            mint_authority_bump_seed: MintAuthorityBump(buffer[96]),
            reserve_authority_bump_seed: ReserveAuthorityBump(buffer[97]),
            reserve_account_bump_seed: ReserveAccountBump(buffer[98]),
        };
        proof {
            assert(serialize_anchor(a) =~= buffer@);
        }
        Ok(a)
    }

    /// Confirms that the account is a token ledger account holding this
    /// instance's wrapped asset.
    pub fn check_is_b_sol_account(&self, token_account: &AccountSnapshot) -> (r: Result<
        (),
        ValidationError,
    >)
        ensures
            r == token_account_check_spec(
                token_program_id_bytes(),
                self.bsol_mint@,
                token_account.owner@,
                token_account.data@,
            ),
    {
        let ledger = token_program_id();
        check_token_account(&ledger, &self.bsol_mint, token_account)
    }

    /// Confirms that `provided_reserve` is the derived reserve account of
    /// this instance.
    pub fn check_reserve_account(
        &self,
        program_id: &Address,
        anchor_state: &Address,
        provided_reserve: &Address,
    ) -> (r: Result<(), ValidationError>)
        ensures
            derived_check_ensures(
                Role::ReserveAccount,
                anchor_state@,
                self.reserve_account_bump_seed.0,
                program_id@,
                provided_reserve@,
                r,
            ),
    {
        check_derived_account(
            Role::ReserveAccount,
            program_id,
            anchor_state,
            self.reserve_account_bump_seed.0,
            provided_reserve,
        )
    }
}

} // verus!
