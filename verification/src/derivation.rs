//! The derived-address authority: computing capability addresses and
//! checking that candidate accounts sit at them.
//!
//! The derivation primitive itself is consumed as a black box: given an
//! ordered list of seed byte-strings and an owning-program id it returns a
//! capability address, or fails if no valid address exists for those inputs.
//! This module only builds the seed lists, names the primitive's result, and
//! checks equality between computed and supplied addresses.

use vstd::prelude::*;

use crate::address::Address;
use crate::error::ValidationError;

verus! {

/// The derived roles a bump seed can belong to.
#[derive(Clone, Copy, Debug, PartialEq, Eq)]
pub enum Role {
    /// The account carrying the instance record itself.
    SelfInstance,
    /// The mint authority of the wrapped-asset mint.
    MintAuthority,
    /// The authority owning the reserve accounts.
    ReserveAuthority,
    /// The primary-asset reserve token account.
    StSolReserve,
    /// The secondary-asset reserve token account.
    UstReserve,
    /// The reserve account of the single-asset variant.
    ReserveAccount,
}

/// A bump seed tied to the self role. Each derived role carries its own
/// wrapper type, so that handing one role's bump to another role cannot
/// happen silently: it must be written out.
#[derive(Clone, Copy, Debug, PartialEq, Eq)]
pub struct SelfBump(pub u8);

/// A bump seed tied to the mint authority role.
#[derive(Clone, Copy, Debug, PartialEq, Eq)]
pub struct MintAuthorityBump(pub u8);

/// A bump seed tied to the reserve authority role.
#[derive(Clone, Copy, Debug, PartialEq, Eq)]
pub struct ReserveAuthorityBump(pub u8);

/// A bump seed tied to the primary-asset reserve role.
#[derive(Clone, Copy, Debug, PartialEq, Eq)]
pub struct StSolReserveBump(pub u8);

/// A bump seed tied to the secondary-asset reserve role.
#[derive(Clone, Copy, Debug, PartialEq, Eq)]
pub struct UstReserveBump(pub u8);

/// A bump seed tied to the swap-pool-derived role.
#[derive(Clone, Copy, Debug, PartialEq, Eq)]
pub struct TokenSwapBump(pub u8);

/// A bump seed tied to the single-asset variant's reserve account role.
#[derive(Clone, Copy, Debug, PartialEq, Eq)]
pub struct ReserveAccountBump(pub u8);

/// The fixed seed label of each satellite role. The self role has no label:
/// its seeds are the instance address and the bump alone.
pub open spec fn role_label_spec(role: Role) -> Seq<u8> {
    match role {
        Role::SelfInstance => seq![],
        Role::MintAuthority => seq![1u8],
        Role::ReserveAuthority => seq![2u8],
        Role::StSolReserve => seq![3u8],
        Role::UstReserve => seq![4u8],
        Role::ReserveAccount => seq![5u8],
    }
}

/// The label bytes of a role, as executable data.
pub fn role_label(role: Role) -> (r: Vec<u8>)
    ensures
        r@ == role_label_spec(role),
{
    let mut out: Vec<u8> = Vec::new();
    match role {
        Role::SelfInstance => {},
        Role::MintAuthority => out.push(1u8),
        Role::ReserveAuthority => out.push(2u8),
        Role::StSolReserve => out.push(3u8),
        Role::UstReserve => out.push(4u8),
        Role::ReserveAccount => out.push(5u8),
    }
    proof {
        assert(out@ =~= role_label_spec(role));
    }
    out
}

/// The ordered seed list for a role: the instance address, the role's label
/// (absent for the self role), and the bump byte.
pub open spec fn role_seeds_spec(role: Role, instance: Seq<u8>, bump: u8) -> Seq<Seq<u8>> {
    match role {
        Role::SelfInstance => seq![instance, seq![bump]],
        _ => seq![instance, role_label_spec(role), seq![bump]],
    }
}

/// The address the external derivation primitive computes from a seed list
/// and an owning-program id, or `None` if those seeds admit no valid
/// capability address. The value is a pure function of its arguments; it is
/// named here rather than spelled out, since it is a cryptographic hash.
pub uninterp spec fn derived_address_of(seeds: Seq<Seq<u8>>, program_id: Seq<u8>) -> Option<
    Seq<u8>,
>;

/// Relies on solana_program's `Pubkey::create_program_address`: a pure,
/// deterministic function of the seed byte-strings and the owning program
/// id. It fails when the seeds exceed the primitive's count or length
/// limits, or when they hash onto the signing-key curve; otherwise it
/// returns the derived off-curve address.
#[verifier::external_body]
fn create_program_address(seeds: &Vec<Vec<u8>>, program_id: &Address) -> (r: Option<Address>)
    ensures
        match r {
            Some(a) => derived_address_of(seeds.deep_view(), program_id@) == Some(a@),
            None => derived_address_of(seeds.deep_view(), program_id@) is None,
        },
{
    let seed_refs: Vec<&[u8]> = seeds.iter().map(|s| s.as_slice()).collect();
    let pk = solana_program::pubkey::Pubkey::new_from_array(program_id.bytes);
    match solana_program::pubkey::Pubkey::create_program_address(&seed_refs, &pk) {
        Ok(a) => Some(Address { bytes: a.to_bytes() }),
        Err(_) => None,
    }
}

/// The capability address pinned to `role` for `instance` under
/// `program_id`, derived with `bump`.
pub open spec fn compute_address_spec(
    role: Role,
    instance: Seq<u8>,
    bump: u8,
    program_id: Seq<u8>,
) -> Option<Seq<u8>> {
    derived_address_of(role_seeds_spec(role, instance, bump), program_id)
}

/// What `compute_address` promises of its result.
pub open spec fn compute_address_ensures(
    role: Role,
    instance: Seq<u8>,
    bump: u8,
    program_id: Seq<u8>,
    r: Result<Address, ValidationError>,
) -> bool {
    match r {
        Ok(a) => compute_address_spec(role, instance, bump, program_id) == Some(a@),
        Err(e) => compute_address_spec(role, instance, bump, program_id) is None && e
            == ValidationError::AddressDerivationFailed,
    }
}

/// Computes the derived address for a role. Fails with
/// `AddressDerivationFailed` exactly when the seeds admit no valid
/// capability address.
pub fn compute_address(
    role: Role,
    program_id: &Address,
    instance: &Address,
    bump: u8,
) -> (r: Result<Address, ValidationError>)
    ensures
        compute_address_ensures(role, instance@, bump, program_id@, r),
{
    let mut seeds: Vec<Vec<u8>> = Vec::new();
    seeds.push(instance.to_vec());
    match role {
        Role::SelfInstance => {},
        _ => seeds.push(role_label(role)),
    }
    let mut bump_bytes: Vec<u8> = Vec::new();
    bump_bytes.push(bump);
    seeds.push(bump_bytes);
    proof {
        assert(seeds.deep_view() =~~= role_seeds_spec(role, instance@, bump));
    }
    match create_program_address(&seeds, program_id) {
        Some(a) => Ok(a),
        None => Err(ValidationError::AddressDerivationFailed),
    }
}

/// What `check_derived_account` promises: against the derived address for
/// the role, a matching candidate is accepted, a differing one is rejected
/// with a mismatch error carrying the role and both addresses, and a role
/// whose seeds admit no address is rejected as a derivation failure.
pub open spec fn derived_check_ensures(
    role: Role,
    instance: Seq<u8>,
    bump: u8,
    program_id: Seq<u8>,
    candidate: Seq<u8>,
    r: Result<(), ValidationError>,
) -> bool {
    match compute_address_spec(role, instance, bump, program_id) {
        Some(addr) => if candidate == addr {
            r == Ok::<(), ValidationError>(())
        } else {
            &&& r matches Err(ValidationError::InvalidDerivedAccount { role: er, expected, found })
            &&& er == role
            &&& expected@ == addr
            &&& found@ == candidate
        },
        None => r == Err::<(), ValidationError>(ValidationError::AddressDerivationFailed),
    }
}

/// Whether the derived-account check accepts the candidate.
pub open spec fn derived_check_ok(
    role: Role,
    instance: Seq<u8>,
    bump: u8,
    program_id: Seq<u8>,
    candidate: Seq<u8>,
) -> bool {
    compute_address_spec(role, instance, bump, program_id) == Some(candidate)
}

/// Checks that `candidate` is the derived address pinned to `role` for
/// `instance` under `program_id`. A pure, deterministic comparison: it must
/// run once per referenced account, strictly before that account is used.
pub fn check_derived_account(
    role: Role,
    program_id: &Address,
    instance: &Address,
    bump: u8,
    candidate: &Address,
) -> (r: Result<(), ValidationError>)
    ensures
        derived_check_ensures(role, instance@, bump, program_id@, candidate@, r),
{
    match compute_address(role, program_id, instance, bump) {
        Ok(expected) => {
            if candidate.eq_address(&expected) {
                Ok(())
            } else {
                Err(
                    ValidationError::InvalidDerivedAccount {
                        role,
                        expected,
                        found: *candidate,
                    },
                )
            }
        },
        Err(e) => Err(e),
    }
}

/// Law: address derivation is deterministic. Any two results that satisfy
/// `compute_address`'s contract for the same inputs are the same result.
pub proof fn lemma_compute_address_deterministic(
    role: Role,
    instance: Seq<u8>,
    bump: u8,
    program_id: Seq<u8>,
    r1: Result<Address, ValidationError>,
    r2: Result<Address, ValidationError>,
)
    requires
        compute_address_ensures(role, instance, bump, program_id, r1),
        compute_address_ensures(role, instance, bump, program_id, r2),
    ensures
        r1 == r2,
{
    match (r1, r2) {
        (Ok(a1), Ok(a2)) => {
            assert(a1@ == a2@);
            crate::address::lemma_address_view_injective(a1, a2);
        },
        _ => {},
    }
}

/// Law: the derived-account check is a pure, deterministic comparison. Any
/// two results that satisfy its contract for the same inputs are the same
/// result, so re-invoking the check without changing inputs can never
/// succeed after it has failed once.
pub proof fn lemma_check_derived_account_deterministic(
    role: Role,
    instance: Seq<u8>,
    bump: u8,
    program_id: Seq<u8>,
    candidate: Seq<u8>,
    r1: Result<(), ValidationError>,
    r2: Result<(), ValidationError>,
)
    requires
        derived_check_ensures(role, instance, bump, program_id, candidate, r1),
        derived_check_ensures(role, instance, bump, program_id, candidate, r2),
    ensures
        r1 == r2,
{
    match (r1, r2) {
        (
            Err(ValidationError::InvalidDerivedAccount { role: ro1, expected: e1, found: f1 }),
            Err(ValidationError::InvalidDerivedAccount { role: ro2, expected: e2, found: f2 }),
        ) => {
            crate::address::lemma_address_view_injective(e1, e2);
            crate::address::lemma_address_view_injective(f1, f2);
        },
        _ => {},
    }
}

/// Law: tamper sensitivity. If the derived-account check accepts a
/// candidate, then flipping any single byte of it yields a candidate that
/// every result satisfying the check's contract rejects with a mismatch
/// error. The check takes all its inputs immutably, so no record field
/// changes as a result.
pub proof fn lemma_check_derived_account_tamper(
    role: Role,
    instance: Seq<u8>,
    bump: u8,
    program_id: Seq<u8>,
    candidate: Seq<u8>,
    tampered: Seq<u8>,
    i: int,
)
    requires
        derived_check_ok(role, instance, bump, program_id, candidate),
        tampered.len() == candidate.len(),
        0 <= i < candidate.len(),
        tampered[i] != candidate[i],
        forall|j: int| 0 <= j < candidate.len() && j != i ==> tampered[j] == candidate[j],
    ensures
        !derived_check_ok(role, instance, bump, program_id, tampered),
        forall|r: Result<(), ValidationError>|
            derived_check_ensures(role, instance, bump, program_id, tampered, r) ==> r matches Err(
                ValidationError::InvalidDerivedAccount { .. },
            ),
{
    assert(tampered != candidate);
}

} // verus!
