//! Tests of the derived-address authority: determinism, tamper
//! sensitivity, the self check, and the secondary-reserve bump reuse.

use anker::account::AccountSnapshot;
use anker::address::Address;
use anker::derivation::{check_derived_account, compute_address, Role, SelfBump, StSolReserveBump,
    UstReserveBump};
use anker::error::ValidationError;
use anker::state::Anker;

fn addr(fill: u8) -> Address {
    let mut bytes = [fill; 32];
    bytes[0] = fill.wrapping_mul(3);
    Address::new(bytes)
}

/// The smallest bump for which the role's seeds admit a valid address.
fn find_bump(role: Role, program_id: &Address, instance: &Address) -> (u8, Address) {
    for bump in 0..=255u8 {
        if let Ok(a) = compute_address(role, program_id, instance, bump) {
            return (bump, a);
        }
    }
    panic!("no valid bump for role");
}

/// A bump for which the role's seeds admit no valid address.
fn find_bad_bump(role: Role, program_id: &Address, instance: &Address) -> u8 {
    for bump in 0..=255u8 {
        if compute_address(role, program_id, instance, bump).is_err() {
            return bump;
        }
    }
    panic!("every bump derives for this role");
}

#[test]
fn test_compute_address_deterministic() {
    let program_id = addr(11);
    let instance = addr(22);
    for bump in 0..=255u8 {
        let first = compute_address(Role::MintAuthority, &program_id, &instance, bump);
        let second = compute_address(Role::MintAuthority, &program_id, &instance, bump);
        assert_eq!(first, second);
    }
}

#[test]
fn test_compute_address_depends_on_role() {
    let program_id = addr(11);
    let instance = addr(22);
    let (bump_a, addr_a) = find_bump(Role::MintAuthority, &program_id, &instance);
    // The same bump under another role either fails or yields another address.
    if let Ok(other) = compute_address(Role::ReserveAuthority, &program_id, &instance, bump_a) {
        assert_ne!(other, addr_a);
    }
}

#[test]
fn test_compute_address_fails_for_some_bump() {
    let program_id = addr(11);
    let instance = addr(22);
    let bad = find_bad_bump(Role::MintAuthority, &program_id, &instance);
    assert!(matches!(
        compute_address(Role::MintAuthority, &program_id, &instance, bad),
        Err(ValidationError::AddressDerivationFailed)
    ));
}

#[test]
fn test_check_derived_account_accepts_pinned_address() {
    let program_id = addr(31);
    let instance = addr(32);
    let (bump, derived) = find_bump(Role::ReserveAuthority, &program_id, &instance);
    assert!(check_derived_account(Role::ReserveAuthority, &program_id, &instance, bump, &derived)
        .is_ok());
}

#[test]
fn test_check_derived_account_tamper_any_byte() {
    let program_id = addr(31);
    let instance = addr(32);
    let (bump, derived) = find_bump(Role::ReserveAuthority, &program_id, &instance);
    for i in 0..32 {
        let mut tampered = derived;
        tampered.bytes[i] ^= 0x01;
        match check_derived_account(Role::ReserveAuthority, &program_id, &instance, bump, &tampered)
        {
            Err(ValidationError::InvalidDerivedAccount { role, expected, found }) => {
                assert_eq!(role, Role::ReserveAuthority);
                assert_eq!(expected, derived);
                assert_eq!(found, tampered);
            },
            other => panic!("expected a mismatch, got {:?}", other),
        }
    }
}

#[test]
fn test_check_self_address() {
    let program_id = addr(41);
    let solido = addr(42);
    let (bump, derived) = find_bump(Role::SelfInstance, &program_id, &solido);
    let mut record = Anker::default();
    record.solido = solido;
    record.self_bump_seed = SelfBump(bump);
    let good = AccountSnapshot { address: derived, owner: program_id, data: vec![] };
    assert!(record.check_self_address(&program_id, &good).is_ok());
    let bad = AccountSnapshot { address: addr(43), owner: program_id, data: vec![] };
    assert!(matches!(
        record.check_self_address(&program_id, &bad),
        Err(ValidationError::InvalidDerivedAccount { role: Role::SelfInstance, .. })
    ));
}

#[test]
fn test_role_checks_use_their_own_bumps() {
    let program_id = addr(51);
    let instance = addr(52);
    let record = {
        let mut r = Anker::default();
        let (stsol_bump, _) = find_bump(Role::StSolReserve, &program_id, &instance);
        r.stsol_reserve_account_bump_seed = StSolReserveBump(stsol_bump);
        let (mint_bump, _) = find_bump(Role::MintAuthority, &program_id, &instance);
        r.mint_authority_bump_seed = anker::derivation::MintAuthorityBump(mint_bump);
        let (reserve_bump, _) = find_bump(Role::ReserveAuthority, &program_id, &instance);
        r.reserve_authority_bump_seed = anker::derivation::ReserveAuthorityBump(reserve_bump);
        r
    };
    let (_, stsol_addr) =
        find_bump(Role::StSolReserve, &program_id, &instance);
    assert!(record
        .check_stsol_reserve_address(&program_id, &instance, &stsol_addr)
        .is_ok());
    let (_, mint_auth) = find_bump(Role::MintAuthority, &program_id, &instance);
    assert!(record.check_mint_authority(&program_id, &instance, &mint_auth).is_ok());
    let (_, reserve_auth) = find_bump(Role::ReserveAuthority, &program_id, &instance);
    assert!(record.check_reserve_authority(&program_id, &instance, &reserve_auth).is_ok());
    // The roles are pinned to different addresses.
    assert_ne!(stsol_addr, mint_auth);
    assert_ne!(mint_auth, reserve_auth);
}

/// The secondary-reserve check reuses the primary reserve's bump seed: the
/// accepted address is the one derived with the primary bump, not with the
/// record's own secondary bump. This test exposes the divergence whenever
/// the two bumps differ.
#[test]
fn test_ust_reserve_check_reuses_stsol_bump() {
    let program_id = addr(61);
    let instance = addr(62);
    // Two distinct bumps that both derive for the secondary-reserve role.
    let (first, first_addr) = find_bump(Role::UstReserve, &program_id, &instance);
    let mut second = None;
    for bump in (first + 1)..=255u8 {
        if let Ok(a) = compute_address(Role::UstReserve, &program_id, &instance, bump) {
            second = Some((bump, a));
            break;
        }
    }
    let (second_bump, second_addr) = second.expect("a second valid bump exists");
    let mut record = Anker::default();
    record.stsol_reserve_account_bump_seed = StSolReserveBump(first);
    record.ust_reserve_account_bump_seed = UstReserveBump(second_bump);
    // The address derived with the primary reserve's bump passes.
    assert!(record.check_ust_reserve_address(&program_id, &instance, &first_addr).is_ok());
    // The address derived with the record's own secondary bump does not.
    assert!(matches!(
        record.check_ust_reserve_address(&program_id, &instance, &second_addr),
        Err(ValidationError::InvalidDerivedAccount { role: Role::UstReserve, .. })
    ));
}
