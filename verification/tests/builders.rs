use upgrade_program::address::{
    find_admin_address, find_program_data_address, Address, BPF_LOADER_UPGRADEABLE_ID, CLOCK_SYSVAR_ID,
    RENT_SYSVAR_ID, SYSTEM_PROGRAM_ID,
};
use upgrade_program::host::AccountMeta;
use upgrade_program::instructions::{
    change_authority, change_public_key, initialize_admin, upgrade, ChangeAuthorityArgs,
    ChangePublicKeyArgs, InitializeAdminArgs, UpgradeArgs, UpgradeInstruction,
};
use upgrade_program::processor::{process_instruction, Step};

fn address(fill: u8) -> Address {
    Address::new_from_array([fill; 32])
}

fn writable(pubkey: Address) -> AccountMeta {
    AccountMeta { pubkey, is_signer: false, is_writable: true }
}

#[test]
fn account_references() {
    assert_eq!(
        AccountMeta::new(address(1), true),
        AccountMeta { pubkey: address(1), is_signer: true, is_writable: true }
    );
    assert_eq!(
        AccountMeta::new_readonly(address(1), false),
        AccountMeta { pubkey: address(1), is_signer: false, is_writable: false }
    );
    assert_eq!(
        AccountMeta::from_parts([1u8; 32], false, true),
        AccountMeta { pubkey: address(1), is_signer: false, is_writable: true }
    );
}

#[test]
fn initialize_admin_instruction() {
    let built = initialize_admin(address(7), address(8), address(9), [5u8; 64]).unwrap();
    let admin = find_admin_address(&address(7), &address(8)).unwrap().0;
    assert_eq!(built.program_id, address(7));
    assert_eq!(
        built.accounts,
        vec![
            AccountMeta { pubkey: admin, is_signer: false, is_writable: true },
            AccountMeta { pubkey: address(9), is_signer: true, is_writable: true },
            AccountMeta {
                pubkey: Address::new_from_array(SYSTEM_PROGRAM_ID),
                is_signer: false,
                is_writable: false
            },
            AccountMeta { pubkey: Address::new_from_array(RENT_SYSVAR_ID), is_signer: false, is_writable: false },
        ]
    );
    assert_eq!(
        UpgradeInstruction::try_from_slice(&built.data),
        Ok(UpgradeInstruction::InitializeAdmin(InitializeAdminArgs {
            public_key: [5u8; 64],
            contract: address(8)
        }))
    );
}

#[test]
fn built_initialization_is_accepted_by_the_dispatcher() {
    let built = initialize_admin(address(7), address(8), address(9), [5u8; 64]).unwrap();
    let accounts: Vec<Address> = built.accounts.iter().map(|meta| meta.pubkey).collect();
    let step = process_instruction(&built.program_id, &accounts, &[], &built.data);
    match step {
        Ok(Step::Allocate(allocation)) => {
            assert_eq!(allocation.account, accounts[0]);
            assert_eq!(allocation.payer, address(9));
            assert_eq!(allocation.contract, address(8));
            assert_eq!(allocation.public_key, [5u8; 64]);
        }
        other => panic!("{:?}", other),
    }
}

#[test]
fn change_public_key_instruction() {
    let built = change_public_key(address(7), address(8), [5u8; 64], [6u8; 64], 1).unwrap();
    let admin = find_admin_address(&address(7), &address(8)).unwrap().0;
    assert_eq!(built.program_id, address(7));
    assert_eq!(built.accounts, vec![writable(admin)]);
    assert_eq!(
        UpgradeInstruction::try_from_slice(&built.data),
        Ok(UpgradeInstruction::ChangePublicKey(ChangePublicKeyArgs {
            new_public_key: [5u8; 64],
            signature: [6u8; 64],
            recovery_id: 1
        }))
    );
}

#[test]
fn change_authority_instruction() {
    let built = change_authority(address(7), address(8), address(10), [6u8; 64], 0).unwrap();
    let admin = find_admin_address(&address(7), &address(8)).unwrap().0;
    let program_data = find_program_data_address(&address(8)).unwrap().0;
    assert_eq!(built.program_id, address(7));
    assert_eq!(
        built.accounts,
        vec![
            writable(admin),
            writable(program_data),
            writable(address(10)),
            writable(Address::new_from_array(BPF_LOADER_UPGRADEABLE_ID)),
        ]
    );
    assert_eq!(
        UpgradeInstruction::try_from_slice(&built.data),
        Ok(UpgradeInstruction::ChangeAuthority(ChangeAuthorityArgs { signature: [6u8; 64], recovery_id: 0 }))
    );
}

#[test]
fn upgrade_instruction() {
    let built = upgrade(address(7), address(8), address(11), address(12), [6u8; 64], 1).unwrap();
    let admin = find_admin_address(&address(7), &address(8)).unwrap().0;
    let program_data = find_program_data_address(&address(8)).unwrap().0;
    assert_eq!(built.program_id, address(7));
    assert_eq!(
        built.accounts,
        vec![
            writable(admin),
            writable(program_data),
            writable(address(8)),
            writable(address(11)),
            writable(address(12)),
            writable(Address::new_from_array(RENT_SYSVAR_ID)),
            writable(Address::new_from_array(CLOCK_SYSVAR_ID)),
            writable(Address::new_from_array(BPF_LOADER_UPGRADEABLE_ID)),
        ]
    );
    assert_eq!(
        UpgradeInstruction::try_from_slice(&built.data),
        Ok(UpgradeInstruction::Upgrade(UpgradeArgs { signature: [6u8; 64], recovery_id: 1 }))
    );
}
