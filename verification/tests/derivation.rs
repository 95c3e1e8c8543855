use octasol_contract::state::config::ConfigState;
use octasol_contract::state::escrow::EscrowAuthority;
use octasol_contract::util::pubkey::Pubkey;

fn key(n: u8) -> Pubkey {
    Pubkey::new_from_array([n; 32])
}

fn outside(k: &Pubkey) -> anchor_lang::prelude::Pubkey {
    anchor_lang::prelude::Pubkey::new_from_array(k.to_bytes())
}

#[test]
fn escrow_authority_is_the_address_the_sdk_finds() {
    let program = key(9);
    let bounty = key(41);
    let found = EscrowAuthority::derive(&bounty, &program).unwrap();
    let (address, bump) = anchor_lang::prelude::Pubkey::find_program_address(
        &[b"escrow_auth", bounty.to_bytes().as_ref()],
        &outside(&program),
    );
    assert_eq!(found.identity.to_bytes(), address.to_bytes());
    assert_eq!(found.bump, bump);
    assert_ne!(found.identity, bounty);
}

#[test]
fn escrow_authority_is_deterministic_and_distinct_per_bounty() {
    let program = key(9);
    let a = EscrowAuthority::derive(&key(1), &program).unwrap();
    let again = EscrowAuthority::derive(&key(1), &program).unwrap();
    let b = EscrowAuthority::derive(&key(2), &program).unwrap();
    let elsewhere = EscrowAuthority::derive(&key(1), &key(10)).unwrap();
    assert_eq!(a, again);
    assert_ne!(a.identity, b.identity);
    assert_ne!(a.identity, elsewhere.identity);
}

#[test]
fn escrow_authority_verifies_with_its_own_bump_only() {
    let program = key(9);
    let bounty = key(41);
    let found = EscrowAuthority::derive(&bounty, &program).unwrap();
    assert!(found.verify(&bounty, &program));
    assert!(!found.verify(&key(42), &program));
    assert!(!found.verify(&bounty, &key(10)));
    let other_bump = EscrowAuthority { identity: found.identity, bump: found.bump.wrapping_sub(1) };
    assert!(!other_bump.verify(&bounty, &program));
    let other_identity = EscrowAuthority { identity: key(7), bump: found.bump };
    assert!(!other_identity.verify(&bounty, &program));
}

#[test]
fn escrow_authority_matches_direct_derivation_with_bump() {
    let program = key(9);
    let bounty = key(41);
    let found = EscrowAuthority::derive(&bounty, &program).unwrap();
    let direct = anchor_lang::prelude::Pubkey::create_program_address(
        &[b"escrow_auth", bounty.to_bytes().as_ref(), &[found.bump]],
        &outside(&program),
    )
    .unwrap();
    assert_eq!(direct.to_bytes(), found.identity.to_bytes());
}

#[test]
fn signer_seeds_are_namespace_key_and_bump() {
    let bounty = key(41);
    let authority = EscrowAuthority { identity: key(5), bump: 254 };
    let seeds = authority.signer_seeds(&bounty);
    assert_eq!(seeds, vec![b"escrow_auth".to_vec(), vec![41u8; 32], vec![254u8]]);
}

#[test]
fn locate_accepts_the_derived_identity_only() {
    let program = key(9);
    let bounty = key(41);
    let found = EscrowAuthority::derive(&bounty, &program).unwrap();
    assert_eq!(EscrowAuthority::locate(&found.identity, &bounty, &program), Some(found.bump));
    assert_eq!(EscrowAuthority::locate(&key(5), &bounty, &program), None);
    assert_eq!(EscrowAuthority::locate(&found.identity, &key(42), &program), None);
}

#[test]
fn registry_address_is_the_address_the_sdk_finds() {
    let program = key(9);
    let (address, bump) = ConfigState::address(&program).unwrap();
    let (expected, expected_bump) =
        anchor_lang::prelude::Pubkey::find_program_address(&[b"config"], &outside(&program));
    assert_eq!(address.to_bytes(), expected.to_bytes());
    assert_eq!(bump, expected_bump);
    assert_eq!(ConfigState::locate(&address, &program), Some(bump));
    assert_eq!(ConfigState::locate(&key(3), &program), None);
    assert_eq!(ConfigState::locate(&address, &key(10)), None);
}

#[test]
fn pubkey_equality_is_byte_equality() {
    let mut bytes = [7u8; 32];
    let a = Pubkey::new_from_array(bytes);
    bytes[31] = 8;
    let b = Pubkey::new_from_array(bytes);
    assert_eq!(a, key(7));
    assert_ne!(a, b);
    assert_eq!(a.to_vec(), vec![7u8; 32]);
    assert_eq!(b.to_bytes()[31], 8);
}

#[test]
fn default_pubkey_is_the_empty_identity() {
    assert_eq!(Pubkey::default().to_bytes(), [0u8; 32]);
    assert!(Pubkey::default().is_empty());
    assert!(!key(1).is_empty());
    let mut bytes = [0u8; 32];
    bytes[31] = 1;
    assert!(!Pubkey::new_from_array(bytes).is_empty());
}

#[test]
fn storage_sizes() {
    assert_eq!(octasol_contract::state::bounty::Bounty::LEN, 162);
    assert_eq!(ConfigState::LEN, 41);
}
