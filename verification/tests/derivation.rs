use solana_program::pubkey::Pubkey;
use upgrade_program::address::{
    admin_signer_seeds, check_admin_address, find_admin_address, find_program_data_address, Address,
    Seeds, BPF_LOADER_UPGRADEABLE_ID, CLOCK_SYSVAR_ID, PDA_ADMIN_SEED, RENT_SYSVAR_ID, SYSTEM_PROGRAM_ID,
};
use upgrade_program::error::{ProcessError, UpgradeError};

fn program() -> Address {
    Address::new_from_array([7u8; 32])
}

fn contract() -> Address {
    let mut bytes = [0u8; 32];
    for (i, byte) in bytes.iter_mut().enumerate() {
        *byte = i as u8;
    }
    Address::new_from_array(bytes)
}

#[test]
fn seed_is_the_text() {
    assert_eq!(&PDA_ADMIN_SEED[..], "admin-upgrade-account".as_bytes());
}

#[test]
fn well_known_addresses() {
    assert_eq!(SYSTEM_PROGRAM_ID, solana_program::system_program::id().to_bytes());
    assert_eq!(BPF_LOADER_UPGRADEABLE_ID, solana_program::bpf_loader_upgradeable::id().to_bytes());
    assert_eq!(RENT_SYSVAR_ID, solana_program::sysvar::rent::id().to_bytes());
    assert_eq!(CLOCK_SYSVAR_ID, solana_program::sysvar::clock::id().to_bytes());
}

#[test]
fn addresses_compare_by_bytes() {
    let a = Address::new_from_array([1u8; 32]);
    let mut other = [1u8; 32];
    assert_eq!(a, Address::new_from_array(other));
    other[31] = 2;
    assert_ne!(a, Address::new_from_array(other));
    assert_eq!(a.to_bytes(), [1u8; 32]);
    assert_eq!(a.to_vec(), vec![1u8; 32]);
}

#[test]
fn seeds_keep_their_order() {
    let mut seeds = Seeds::new();
    assert!(seeds.parts.is_empty());
    seeds.push(&[1, 2]);
    seeds.push(&[]);
    seeds.push(&[3]);
    assert_eq!(seeds.parts, vec![vec![1u8, 2], vec![], vec![3]]);
}

#[test]
fn seeds_are_copied() {
    let mut seeds = Seeds::new();
    seeds.push(&[1, 2]);
    seeds.push(&[3]);
    let copy = seeds.duplicate();
    assert_eq!(copy, seeds);
    assert_eq!(Seeds::new().duplicate().parts.len(), 0);
}

#[test]
fn admin_address_is_the_hosts_derivation() {
    let (expected, bump) = Pubkey::find_program_address(
        &["admin-upgrade-account".as_bytes(), &contract().to_bytes()],
        &Pubkey::new_from_array(program().to_bytes()),
    );
    let found = find_admin_address(&program(), &contract());
    assert_eq!(found, Some((Address::new_from_array(expected.to_bytes()), bump)));
    assert_ne!(found.unwrap().0, contract());
    assert_ne!(found.unwrap().0, program());
}

#[test]
fn admin_address_depends_on_resource_and_program() {
    let base = find_admin_address(&program(), &contract()).unwrap().0;
    let other_contract = find_admin_address(&program(), &Address::new_from_array([8u8; 32])).unwrap().0;
    let other_program = find_admin_address(&Address::new_from_array([8u8; 32]), &contract()).unwrap().0;
    assert_ne!(base, other_contract);
    assert_ne!(base, other_program);
    assert_eq!(find_admin_address(&program(), &contract()).unwrap().0, base);
}

#[test]
fn program_data_address_is_the_loaders_derivation() {
    let (expected, bump) = Pubkey::find_program_address(
        &[&contract().to_bytes()],
        &solana_program::bpf_loader_upgradeable::id(),
    );
    assert_eq!(
        find_program_data_address(&contract()),
        Some((Address::new_from_array(expected.to_bytes()), bump))
    );
}

#[test]
fn signer_seeds_end_with_the_bump() {
    let seeds = admin_signer_seeds(&contract(), 254);
    assert_eq!(
        seeds.parts,
        vec![b"admin-upgrade-account".to_vec(), contract().to_vec(), vec![254u8]]
    );
}

#[test]
fn derived_address_signs_with_its_seeds() {
    let (address, bump) = find_admin_address(&program(), &contract()).unwrap();
    let seeds = admin_signer_seeds(&contract(), bump);
    let parts: Vec<&[u8]> = seeds.parts.iter().map(|p| p.as_slice()).collect();
    let made = Pubkey::create_program_address(&parts, &Pubkey::new_from_array(program().to_bytes())).unwrap();
    assert_eq!(made.to_bytes(), address.to_bytes());
}

#[test]
fn address_binding() {
    let a = Address::new_from_array([1u8; 32]);
    let b = Address::new_from_array([2u8; 32]);
    assert_eq!(check_admin_address(Some((a, 250)), &a, UpgradeError::WrongSeeds), Ok(250));
    assert_eq!(
        check_admin_address(Some((a, 250)), &b, UpgradeError::WrongSeeds),
        Err(ProcessError::Upgrade(UpgradeError::WrongSeeds))
    );
    assert_eq!(
        check_admin_address(Some((a, 250)), &b, UpgradeError::WrongAdmin),
        Err(ProcessError::Upgrade(UpgradeError::WrongAdmin))
    );
    assert_eq!(
        check_admin_address(None, &a, UpgradeError::WrongSeeds),
        Err(ProcessError::NoProgramAddress)
    );
}
