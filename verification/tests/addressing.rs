use agent_registry::permission_hooks::signer_seeds;
use agent_registry::pubkey::{
    agent_tag_seed, find_agent_address, find_reputation_address, reputation_tag_seed, Pubkey,
};

fn key(fill: u8) -> Pubkey {
    Pubkey::new_from_array([fill; 32])
}

#[test]
fn agent_address_is_deterministic() {
    let program = key(7);
    let first = find_agent_address(&program, &key(1));
    let second = find_agent_address(&program, &key(1));
    assert!(first.is_some());
    assert_eq!(first, second);
}

#[test]
fn agent_address_differs_from_owner_key() {
    let program = key(7);
    let owner = key(1);
    let (address, _bump) = find_agent_address(&program, &owner).unwrap();
    assert_ne!(address, owner);
    assert_ne!(address, program);
}

#[test]
fn distinct_owners_get_distinct_addresses() {
    let program = key(7);
    let a = find_agent_address(&program, &key(1)).unwrap();
    let b = find_agent_address(&program, &key(2)).unwrap();
    assert_ne!(a.0, b.0);
}

#[test]
fn distinct_programs_get_distinct_addresses() {
    let a = find_agent_address(&key(7), &key(1)).unwrap();
    let b = find_agent_address(&key(8), &key(1)).unwrap();
    assert_ne!(a.0, b.0);
}

#[test]
fn rating_address_depends_on_both_keys() {
    let program = key(7);
    let agent = find_agent_address(&program, &key(1)).unwrap().0;
    let r1 = find_reputation_address(&program, &agent, &key(3)).unwrap();
    let r2 = find_reputation_address(&program, &agent, &key(4)).unwrap();
    let r3 = find_reputation_address(&program, &key(5), &key(3)).unwrap();
    assert_ne!(r1.0, r2.0);
    assert_ne!(r1.0, r3.0);
    assert_ne!(r1.0, agent);
    assert_eq!(r1, find_reputation_address(&program, &agent, &key(3)).unwrap());
}

#[test]
fn agent_address_is_the_program_derived_address_of_tag_and_owner() {
    let program = key(7);
    let owner = key(1);
    let expected = anchor_lang::prelude::Pubkey::find_program_address(
        &[b"agent", &[1u8; 32]],
        &anchor_lang::prelude::Pubkey::new_from_array([7u8; 32]),
    );
    let (address, bump) = find_agent_address(&program, &owner).unwrap();
    assert_eq!(address.to_bytes(), expected.0.to_bytes());
    assert_eq!(bump, expected.1);
}

#[test]
fn rating_address_is_the_program_derived_address_of_tag_agent_and_rater() {
    let program = key(7);
    let expected = anchor_lang::prelude::Pubkey::find_program_address(
        &[b"reputation", &[2u8; 32], &[3u8; 32]],
        &anchor_lang::prelude::Pubkey::new_from_array([7u8; 32]),
    );
    let (address, bump) = find_reputation_address(&program, &key(2), &key(3)).unwrap();
    assert_eq!(address.to_bytes(), expected.0.to_bytes());
    assert_eq!(bump, expected.1);
}

#[test]
fn derived_address_is_off_the_curve_and_recreated_from_the_bump() {
    let program = key(7);
    let owner = key(1);
    let (address, bump) = find_agent_address(&program, &owner).unwrap();
    let seeds = signer_seeds(&owner, bump);
    let parts: Vec<&[u8]> = seeds.iter().map(|s| s.as_slice()).collect();
    let recreated = anchor_lang::prelude::Pubkey::create_program_address(
        &parts,
        &anchor_lang::prelude::Pubkey::new_from_array([7u8; 32]),
    )
    .unwrap();
    assert_eq!(recreated.to_bytes(), address.to_bytes());
    assert!(!recreated.is_on_curve());
}

#[test]
fn tags_are_the_ascii_names_of_the_namespaces() {
    assert_eq!(agent_tag_seed(), b"agent".to_vec());
    assert_eq!(reputation_tag_seed(), b"reputation".to_vec());
}

#[test]
fn signer_seeds_are_tag_owner_and_bump() {
    let seeds = signer_seeds(&key(9), 254);
    assert_eq!(seeds, vec![b"agent".to_vec(), vec![9u8; 32], vec![254u8]]);
}

#[test]
fn keys_compare_by_their_bytes() {
    let mut bytes = [4u8; 32];
    assert!(key(4).same(&Pubkey::new_from_array(bytes)));
    bytes[31] = 5;
    assert!(!key(4).same(&Pubkey::new_from_array(bytes)));
    assert_eq!(key(4).to_bytes(), [4u8; 32]);
    assert_eq!(key(4).to_seed(), vec![4u8; 32]);
}
