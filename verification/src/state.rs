//! The dual-asset wrapper's Instance Record, its fixed-layout codec, and
//! its validators.

use vstd::prelude::*;

use crate::account::AccountSnapshot;
use crate::address::{first_mismatch, zero_address_bytes, Address};
use crate::codec::{bytes_from, push_address, read_address};
use crate::derivation::{
    check_derived_account, compute_address_spec, derived_check_ensures, MintAuthorityBump,
    ReserveAuthorityBump, Role, SelfBump, StSolReserveBump, TokenSwapBump, UstReserveBump,
};
use crate::error::ValidationError;
use crate::pool::{swap_pool_format_ok, unpack_swap_pool};
use crate::token::{check_token_account, token_account_check_spec, token_program_id,
    token_program_id_bytes};

verus! {

/// Size of the serialized [`Anker`] record, in bytes.
pub const ANKER_LEN: usize = 166;

/// The dual-asset wrapper's Instance Record: one per protocol deployment,
/// created at instance initialization and read on every subsequent call.
#[verifier::ext_equal]
#[derive(Clone, Copy, Debug, PartialEq, Eq)]
pub struct Anker {
    /// The program that owns the underlying-protocol instance.
    pub solido_program_id: Address,
    /// The underlying-protocol instance address.
    pub solido: Address,
    /// The mint address of the wrapped asset this instance issues.
    pub b_sol_mint: Address,
    /// The external swap pool used to convert rewards.
    pub pool: Address,
    /// The configured destination of converted rewards.
    pub rewards_destination: Address,
    /// Bump seed for the derived address this instance itself lives at.
    pub self_bump_seed: SelfBump,
    /// Bump seed for the mint authority derived address.
    pub mint_authority_bump_seed: MintAuthorityBump,
    /// Bump seed for the reserve authority derived address.
    pub reserve_authority_bump_seed: ReserveAuthorityBump,
    /// Bump seed for the primary-asset reserve account.
    pub stsol_reserve_account_bump_seed: StSolReserveBump,
    /// Bump seed for the secondary-asset reserve account.
    pub ust_reserve_account_bump_seed: UstReserveBump,
    /// Bump seed for the swap-pool-derived address.
    pub token_swap_bump_seed: TokenSwapBump,
}

/// The fixed-layout encoding of a record: the five addresses in order,
/// then the six bump bytes.
pub open spec fn serialize_anker(a: Anker) -> Seq<u8> {
    a.solido_program_id@ + a.solido@ + a.b_sol_mint@ + a.pool@ + a.rewards_destination@ + seq![
        a.self_bump_seed.0,
        a.mint_authority_bump_seed.0,
        a.reserve_authority_bump_seed.0,
        a.stsol_reserve_account_bump_seed.0,
        a.ust_reserve_account_bump_seed.0,
        a.token_swap_bump_seed.0,
    ]
}

/// Law (exact length): every record serializes to exactly `ANKER_LEN`
/// bytes, whatever its field values.
pub proof fn lemma_serialize_anker_len(a: Anker)
    ensures
        serialize_anker(a).len() == ANKER_LEN,
{
}

/// Law (round trip): the encoding is injective — two records with the same
/// serialized bytes are the same record. Together with the contracts of
/// [`Anker::save`] and [`Anker::load`], this gives `load(save(r)) == r` for
/// every record `r`.
pub proof fn lemma_serialize_anker_injective(a: Anker, b: Anker)
    requires
        serialize_anker(a) == serialize_anker(b),
    ensures
        a == b,
{
    let sa = serialize_anker(a);
    let sb = serialize_anker(b);
    assert(a.solido_program_id@ =~= b.solido_program_id@) by {
        assert forall|i: int| 0 <= i < 32 implies a.solido_program_id@[i]
            == b.solido_program_id@[i] by {
            assert(sa[i] == a.solido_program_id@[i]);
            assert(sb[i] == b.solido_program_id@[i]);
        }
    }
    assert(a.solido@ =~= b.solido@) by {
        assert forall|i: int| 0 <= i < 32 implies a.solido@[i] == b.solido@[i] by {
            assert(sa[32 + i] == a.solido@[i]);
            assert(sb[32 + i] == b.solido@[i]);
        }
    }
    assert(a.b_sol_mint@ =~= b.b_sol_mint@) by {
        assert forall|i: int| 0 <= i < 32 implies a.b_sol_mint@[i] == b.b_sol_mint@[i] by {
            assert(sa[64 + i] == a.b_sol_mint@[i]);
            assert(sb[64 + i] == b.b_sol_mint@[i]);
        }
    }
    assert(a.pool@ =~= b.pool@) by {
        assert forall|i: int| 0 <= i < 32 implies a.pool@[i] == b.pool@[i] by {
            assert(sa[96 + i] == a.pool@[i]);
            assert(sb[96 + i] == b.pool@[i]);
        }
    }
    assert(a.rewards_destination@ =~= b.rewards_destination@) by {
        assert forall|i: int| 0 <= i < 32 implies a.rewards_destination@[i]
            == b.rewards_destination@[i] by {
            assert(sa[128 + i] == a.rewards_destination@[i]);
            assert(sb[128 + i] == b.rewards_destination@[i]);
        }
    }
    crate::address::lemma_address_view_injective(a.solido_program_id, b.solido_program_id);
    crate::address::lemma_address_view_injective(a.solido, b.solido);
    crate::address::lemma_address_view_injective(a.b_sol_mint, b.b_sol_mint);
    crate::address::lemma_address_view_injective(a.pool, b.pool);
    crate::address::lemma_address_view_injective(a.rewards_destination, b.rewards_destination);
    assert(sa[160] == a.self_bump_seed.0 && sb[160] == b.self_bump_seed.0);
    assert(sa[161] == a.mint_authority_bump_seed.0 && sb[161] == b.mint_authority_bump_seed.0);
    assert(sa[162] == a.reserve_authority_bump_seed.0 && sb[162]
        == b.reserve_authority_bump_seed.0);
    assert(sa[163] == a.stsol_reserve_account_bump_seed.0 && sb[163]
        == b.stsol_reserve_account_bump_seed.0);
    assert(sa[164] == a.ust_reserve_account_bump_seed.0 && sb[164]
        == b.ust_reserve_account_bump_seed.0);
    assert(sa[165] == a.token_swap_bump_seed.0 && sb[165] == b.token_swap_bump_seed.0);
    assert(a =~= b);
}

impl Default for Anker {
    /// The all-zero record.
    fn default() -> (r: Anker)
        ensures
            r.solido_program_id@ == zero_address_bytes(),
            r.solido@ == zero_address_bytes(),
            r.b_sol_mint@ == zero_address_bytes(),
            r.pool@ == zero_address_bytes(),
            r.rewards_destination@ == zero_address_bytes(),
            r.self_bump_seed == SelfBump(0u8),
            r.mint_authority_bump_seed == MintAuthorityBump(0u8),
            r.reserve_authority_bump_seed == ReserveAuthorityBump(0u8),
            r.stsol_reserve_account_bump_seed == StSolReserveBump(0u8),
            r.ust_reserve_account_bump_seed == UstReserveBump(0u8),
            r.token_swap_bump_seed == TokenSwapBump(0u8),
    {
        Anker {
            solido_program_id: Address::zero(),
            solido: Address::zero(),
            b_sol_mint: Address::zero(),
            pool: Address::zero(),
            rewards_destination: Address::zero(),
            self_bump_seed: SelfBump(0),
            mint_authority_bump_seed: MintAuthorityBump(0),
            reserve_authority_bump_seed: ReserveAuthorityBump(0),
            stsol_reserve_account_bump_seed: StSolReserveBump(0),
            ust_reserve_account_bump_seed: UstReserveBump(0),
            token_swap_bump_seed: TokenSwapBump(0),
        }
    }
}

impl Anker {
    /// The record's fixed-length encoding, as a fresh buffer.
    pub fn to_vec(&self) -> (r: Vec<u8>)
        ensures
            r@ == serialize_anker(*self),
    {
        let mut out: Vec<u8> = Vec::new();
        push_address(&mut out, &self.solido_program_id);
        push_address(&mut out, &self.solido);
        push_address(&mut out, &self.b_sol_mint);
        push_address(&mut out, &self.pool);
        push_address(&mut out, &self.rewards_destination);
        out.push(self.self_bump_seed.0);
        out.push(self.mint_authority_bump_seed.0);
        out.push(self.reserve_authority_bump_seed.0);
        out.push(self.stsol_reserve_account_bump_seed.0);
        out.push(self.ust_reserve_account_bump_seed.0);
        out.push(self.token_swap_bump_seed.0);
        proof {
            assert(out@ =~= serialize_anker(*self));
        }
        out
    }

    /// Writes the record's fixed-length encoding into `buffer` in place.
    /// Fails with `SchemaMismatch` if the buffer is not pre-sized to the
    /// record's exact serialized length: callers must not resize the
    /// underlying account.
    pub fn save(&self, buffer: &mut Vec<u8>) -> (r: Result<(), ValidationError>)
        ensures
            old(buffer)@.len() == ANKER_LEN ==> r == Ok::<(), ValidationError>(())
                && final(buffer)@ == serialize_anker(*self),
            old(buffer)@.len() != ANKER_LEN ==> r == Err::<(), ValidationError>(
                ValidationError::SchemaMismatch,
            ) && final(buffer)@ == old(buffer)@,
    {
        if buffer.len() != ANKER_LEN {
            return Err(ValidationError::SchemaMismatch);
        }
        let encoded = self.to_vec();
        buffer.clear();
        buffer.append(&mut { encoded });
        Ok(())
    }

    /// Parses a record from its fixed-length encoding. Fails with
    /// `SchemaMismatch` exactly when the buffer does not have that length.
    pub fn load(buffer: &Vec<u8>) -> (r: Result<Anker, ValidationError>)
        ensures
            match r {
                Ok(a) => buffer@.len() == ANKER_LEN && serialize_anker(a) == buffer@,
                Err(e) => buffer@.len() != ANKER_LEN && e == ValidationError::SchemaMismatch,
            },
    {
        if buffer.len() != ANKER_LEN {
            return Err(ValidationError::SchemaMismatch);
        }
        let a = Anker {
            solido_program_id: read_address(buffer, 0),
            solido: read_address(buffer, 32),
            b_sol_mint: read_address(buffer, 64),
            pool: read_address(buffer, 96),
            rewards_destination: read_address(buffer, 128),
            self_bump_seed: SelfBump(buffer[160]),
            mint_authority_bump_seed: MintAuthorityBump(buffer[161]),
            reserve_authority_bump_seed: ReserveAuthorityBump(buffer[162]),
            stsol_reserve_account_bump_seed: StSolReserveBump(buffer[163]),
            ust_reserve_account_bump_seed: UstReserveBump(buffer[164]),
            token_swap_bump_seed: TokenSwapBump(buffer[165]),
        };
        proof {
            assert(serialize_anker(a) =~= buffer@);
        }
        Ok(a)
    }

    /// Confirms that `account` sits at the derived address this instance
    /// itself should live at, guarding against a forged record substituted
    /// for the real one.
    pub fn check_self_address(
        &self,
        anker_program_id: &Address,
        account: &AccountSnapshot,
    ) -> (r: Result<(), ValidationError>)
        ensures
            derived_check_ensures(
                Role::SelfInstance,
                self.solido@,
                self.self_bump_seed.0,
                anker_program_id@,
                account.address@,
                r,
            ),
    {
        check_derived_account(
            Role::SelfInstance,
            anker_program_id,
            &self.solido,
            self.self_bump_seed.0,
            &account.address,
        )
    }

    /// Confirms that the supplied primary-asset reserve is the one that
    /// belongs to this instance. This does not check that it is a token
    /// account of the primary asset.
    pub fn check_stsol_reserve_address(
        &self,
        anker_program_id: &Address,
        anker_instance: &Address,
        stsol_reserve: &Address,
    ) -> (r: Result<(), ValidationError>)
        ensures
            derived_check_ensures(
                Role::StSolReserve,
                anker_instance@,
                self.stsol_reserve_account_bump_seed.0,
                anker_program_id@,
                stsol_reserve@,
                r,
            ),
    {
        check_derived_account(
            Role::StSolReserve,
            anker_program_id,
            anker_instance,
            self.stsol_reserve_account_bump_seed.0,
            stsol_reserve,
        )
    }

    /// Confirms that the supplied secondary-asset reserve is the one that
    /// belongs to this instance.
    ///
    /// Known risk, kept deliberately: this check reuses the primary
    /// reserve's bump seed rather than the record's own secondary-reserve
    /// bump. Whether the seed sharing is intentional is unresolved, so the
    /// behaviour stands as is; the distinct bump wrapper types make the
    /// reuse explicit here instead of silent.
    pub fn check_ust_reserve_address(
        &self,
        anker_program_id: &Address,
        anker_instance: &Address,
        ust_reserve: &Address,
    ) -> (r: Result<(), ValidationError>)
        ensures
            derived_check_ensures(
                Role::UstReserve,
                anker_instance@,
                self.stsol_reserve_account_bump_seed.0,
                anker_program_id@,
                ust_reserve@,
                r,
            ),
    {
        check_derived_account(
            Role::UstReserve,
            anker_program_id,
            anker_instance,
            self.stsol_reserve_account_bump_seed.0,
            ust_reserve,
        )
    }

    /// Confirms that the supplied reserve authority is the one that belongs
    /// to this instance.
    pub fn check_reserve_authority(
        &self,
        anker_program_id: &Address,
        anker_instance: &Address,
        reserve_authority: &Address,
    ) -> (r: Result<(), ValidationError>)
        ensures
            derived_check_ensures(
                Role::ReserveAuthority,
                anker_instance@,
                self.reserve_authority_bump_seed.0,
                anker_program_id@,
                reserve_authority@,
                r,
            ),
    {
        check_derived_account(
            Role::ReserveAuthority,
            anker_program_id,
            anker_instance,
            self.reserve_authority_bump_seed.0,
            reserve_authority,
        )
    }

    /// Confirms that the supplied mint authority is the one that belongs to
    /// this instance.
    pub fn check_mint_authority(
        &self,
        anker_program_id: &Address,
        anker_instance: &Address,
        mint_authority: &Address,
    ) -> (r: Result<(), ValidationError>)
        ensures
            derived_check_ensures(
                Role::MintAuthority,
                anker_instance@,
                self.mint_authority_bump_seed.0,
                anker_program_id@,
                mint_authority@,
                r,
            ),
    {
        check_derived_account(
            Role::MintAuthority,
            anker_program_id,
            anker_instance,
            self.mint_authority_bump_seed.0,
            mint_authority,
        )
    }

    /// Confirms that the supplied mint account is the wrapped-asset mint
    /// stored in this instance: it must be owned by the token ledger
    /// program, and sit at the stored mint address.
    pub fn check_mint(&self, provided_mint: &AccountSnapshot) -> (r: Result<(), ValidationError>)
        ensures
            r == mint_check_spec(self.b_sol_mint@, provided_mint.owner@, provided_mint.address@),
    {
        let ledger = token_program_id();
        if !provided_mint.owner.eq_address(&ledger) {
            return Err(ValidationError::InvalidAccountOwner);
        }
        if !provided_mint.address.eq_address(&self.b_sol_mint) {
            return Err(ValidationError::InvalidMint);
        }
        Ok(())
    }

    /// Confirms that the account is a token ledger account holding the
    /// wrapped asset.
    pub fn check_is_b_sol_account(&self, token_account: &AccountSnapshot) -> (r: Result<
        (),
        ValidationError,
    >)
        ensures
            r == token_account_check_spec(
                token_program_id_bytes(),
                self.b_sol_mint@,
                token_account.owner@,
                token_account.data@,
            ),
    {
        let ledger = token_program_id();
        check_token_account(&ledger, &self.b_sol_mint, token_account)
    }

    /// Confirms that the account is a token ledger account holding the
    /// underlying asset, whose mint the underlying protocol records.
    pub fn check_is_st_sol_account(
        &self,
        st_sol_mint: &Address,
        token_account: &AccountSnapshot,
    ) -> (r: Result<(), ValidationError>)
        ensures
            r == token_account_check_spec(
                token_program_id_bytes(),
                st_sol_mint@,
                token_account.owner@,
                token_account.data@,
            ),
    {
        let ledger = token_program_id();
        check_token_account(&ledger, st_sol_mint, token_account)
    }

    /// Cross-checks the external swap pool's recorded fields against this
    /// instance's stored configuration: a linear fail-closed pipeline whose
    /// first failing step decides the error.
    pub fn check_token_swap(
        &self,
        anker_program_id: &Address,
        accounts: &SellRewardsAccounts,
    ) -> (r: Result<(), ValidationError>)
        ensures
            swap_check_ensures(*self, anker_program_id@, *accounts, r),
    {
        if !accounts.pool.address.eq_address(&self.pool) {
            return Err(ValidationError::WrongExternalPoolInstance);
        }
        if accounts.pool.data.len() < 1 {
            return Err(ValidationError::PoolUnpackError);
        }
        let state_bytes = bytes_from(&accounts.pool.data, 1);
        let pool_state = match unpack_swap_pool(&state_bytes) {
            Some(p) => p,
            None => {
                return Err(ValidationError::PoolUnpackError);
            },
        };
        match self.check_ust_reserve_address(anker_program_id, &accounts.anker, &accounts.ust_token)
        {
            Ok(()) => {},
            Err(e) => {
                return Err(e);
            },
        }
        // The remaining steps are an ordered table of (expected, found)
        // pairs, evaluated by one generic routine: the first mismatch wins.
        let mut table: Vec<(Address, Address)> = Vec::new();
        table.push((pool_state.token_a, accounts.st_sol_token));
        table.push((pool_state.token_b, accounts.ust_token));
        table.push((pool_state.pool_mint, accounts.pool_mint));
        table.push((pool_state.token_a_mint, accounts.st_sol_mint));
        table.push((pool_state.token_b_mint, accounts.ust_mint));
        table.push((pool_state.pool_fee_account, accounts.pool_fee_account));
        table.push((self.rewards_destination, accounts.rewards_destination));
        proof {
            assert(table@ =~= seq![
                (pool_state.token_a, accounts.st_sol_token),
                (pool_state.token_b, accounts.ust_token),
                (pool_state.pool_mint, accounts.pool_mint),
                (pool_state.token_a_mint, accounts.st_sol_mint),
                (pool_state.token_b_mint, accounts.ust_mint),
                (pool_state.pool_fee_account, accounts.pool_fee_account),
                (self.rewards_destination, accounts.rewards_destination),
            ]);
        }
        match first_mismatch(&table) {
            None => {
                proof {
                    assert(table@[0].0@ == table@[0].1@);
                    assert(table@[1].0@ == table@[1].1@);
                    assert(table@[2].0@ == table@[2].1@);
                    assert(table@[3].0@ == table@[3].1@);
                    assert(table@[4].0@ == table@[4].1@);
                    assert(table@[5].0@ == table@[5].1@);
                    assert(table@[6].0@ == table@[6].1@);
                }
                Ok(())
            },
            Some(i) => {
                proof {
                    if i >= 1 {
                        assert(table@[0].0@ == table@[0].1@);
                    }
                    if i >= 2 {
                        assert(table@[1].0@ == table@[1].1@);
                    }
                    if i >= 3 {
                        assert(table@[2].0@ == table@[2].1@);
                    }
                    if i >= 4 {
                        assert(table@[3].0@ == table@[3].1@);
                    }
                    if i >= 5 {
                        assert(table@[4].0@ == table@[4].1@);
                    }
                    if i >= 6 {
                        assert(table@[5].0@ == table@[5].1@);
                    }
                    assert(table@[i as int].0@ != table@[i as int].1@);
                }
                if i < 6 {
                    Err(ValidationError::WrongExternalPoolParameters)
                } else {
                    Err(ValidationError::InvalidRewardsDestination)
                }
            },
        }
    }
}

/// What the wrapped-asset mint check returns, as a function of the stored
/// mint, the candidate's recorded owner, and the candidate's address.
pub open spec fn mint_check_spec(
    stored_mint: Seq<u8>,
    owner: Seq<u8>,
    candidate: Seq<u8>,
) -> Result<(), ValidationError> {
    if owner != token_program_id_bytes() {
        Err(ValidationError::InvalidAccountOwner)
    } else if candidate != stored_mint {
        Err(ValidationError::InvalidMint)
    } else {
        Ok(())
    }
}

/// The bundle of account snapshots supplied for a sell-rewards call.
#[derive(Debug)]
pub struct SellRewardsAccounts {
    /// The address of the account carrying this instance's record.
    pub anker: Address,
    /// The swap pool account: its address and its raw state buffer.
    pub pool: AccountSnapshot,
    /// The supplied primary-asset token account.
    pub st_sol_token: Address,
    /// The supplied secondary-asset token account.
    pub ust_token: Address,
    /// The supplied pool-share mint.
    pub pool_mint: Address,
    /// The supplied primary-asset mint.
    pub st_sol_mint: Address,
    /// The supplied secondary-asset mint.
    pub ust_mint: Address,
    /// The supplied pool fee account.
    pub pool_fee_account: Address,
    /// The supplied rewards destination.
    pub rewards_destination: Address,
}

/// Whether a pool account buffer carries a well-formed swap pool state
/// after its one-byte leading discriminant.
pub open spec fn pool_state_ok(pool_data: Seq<u8>) -> bool {
    pool_data.len() >= 1 && swap_pool_format_ok(pool_data.skip(1))
}

/// The ordered field-by-field comparison of an unpacked pool state against
/// the supplied bundle, ending with the stored rewards destination; the
/// first mismatch decides the error.
pub open spec fn pool_field_check(a: Anker, state: Seq<u8>, acc: SellRewardsAccounts) -> Result<
    (),
    ValidationError,
> {
    if state.subrange(34, 66) != acc.st_sol_token@ {
        Err(ValidationError::WrongExternalPoolParameters)
    } else if state.subrange(66, 98) != acc.ust_token@ {
        Err(ValidationError::WrongExternalPoolParameters)
    } else if state.subrange(98, 130) != acc.pool_mint@ {
        Err(ValidationError::WrongExternalPoolParameters)
    } else if state.subrange(130, 162) != acc.st_sol_mint@ {
        Err(ValidationError::WrongExternalPoolParameters)
    } else if state.subrange(162, 194) != acc.ust_mint@ {
        Err(ValidationError::WrongExternalPoolParameters)
    } else if state.subrange(194, 226) != acc.pool_fee_account@ {
        Err(ValidationError::WrongExternalPoolParameters)
    } else if a.rewards_destination@ != acc.rewards_destination@ {
        Err(ValidationError::InvalidRewardsDestination)
    } else {
        Ok(())
    }
}

/// What `check_token_swap` promises: the pool address, the pool state's
/// well-formedness, the secondary-reserve role check, the recorded pool
/// fields, and the rewards destination are checked in that order, and the
/// first failing step decides the result.
pub open spec fn swap_check_ensures(
    a: Anker,
    program_id: Seq<u8>,
    acc: SellRewardsAccounts,
    r: Result<(), ValidationError>,
) -> bool {
    if acc.pool.address@ != a.pool@ {
        r == Err::<(), ValidationError>(ValidationError::WrongExternalPoolInstance)
    } else if !pool_state_ok(acc.pool.data@) {
        r == Err::<(), ValidationError>(ValidationError::PoolUnpackError)
    } else if compute_address_spec(
        Role::UstReserve,
        acc.anker@,
        a.stsol_reserve_account_bump_seed.0,
        program_id,
    ) != Some(acc.ust_token@) {
        derived_check_ensures(
            Role::UstReserve,
            acc.anker@,
            a.stsol_reserve_account_bump_seed.0,
            program_id,
            acc.ust_token@,
            r,
        )
    } else {
        r == pool_field_check(a, acc.pool.data@.skip(1), acc)
    }
}

} // verus!
