use borsh::BorshSerialize;
use upgrade_program::address::Address;
use upgrade_program::bytes::{
    append_bytes, bytes_equal, read_array, u64_from_le_bytes, u64_to_be_bytes, u64_to_le_bytes,
};
use upgrade_program::error::CodecError;
use upgrade_program::instructions::{
    ChangeAuthorityArgs, ChangePublicKeyArgs, InitializeAdminArgs, UpgradeArgs, UpgradeInstruction,
};
use upgrade_program::state::{UpgradeAdmin, MAX_ADMIN_SIZE};

fn sample_record() -> UpgradeAdmin {
    let mut key = [0u8; 64];
    for (i, byte) in key.iter_mut().enumerate() {
        *byte = i as u8;
    }
    UpgradeAdmin {
        public_key: key,
        contract: Address::new_from_array([9u8; 32]),
        nonce: 0x0102030405060708,
        is_initialized: true,
    }
}

#[test]
fn nonce_bytes_most_significant_first() {
    assert_eq!(u64_to_be_bytes(1), [0, 0, 0, 0, 0, 0, 0, 1]);
    assert_eq!(u64_to_be_bytes(0x0102030405060708), [1, 2, 3, 4, 5, 6, 7, 8]);
    assert_eq!(u64_to_be_bytes(u64::MAX), [255; 8]);
    assert_eq!(u64_to_be_bytes(0), [0; 8]);
}

#[test]
fn nonce_bytes_least_significant_first() {
    assert_eq!(u64_to_le_bytes(1), [1, 0, 0, 0, 0, 0, 0, 0]);
    assert_eq!(u64_to_le_bytes(0x0102030405060708), [8, 7, 6, 5, 4, 3, 2, 1]);
    assert_eq!(u64_to_le_bytes(0x0102030405060708), 0x0102030405060708u64.to_le_bytes());
}

#[test]
fn number_is_read_back_from_its_bytes() {
    let data = [0xff, 8, 7, 6, 5, 4, 3, 2, 1, 0xff];
    assert_eq!(u64_from_le_bytes(&data, 1), 0x0102030405060708);
    for n in [0u64, 1, 255, 256, u64::MAX, 0xdead_beef_0000_0001] {
        assert_eq!(u64_from_le_bytes(&u64_to_le_bytes(n), 0), n);
    }
}

#[test]
fn byte_strings_compare_by_length_and_content() {
    assert!(bytes_equal(&[], &[]));
    assert!(bytes_equal(&[1, 2, 3], &[1, 2, 3]));
    assert!(!bytes_equal(&[1, 2, 3], &[1, 2, 4]));
    assert!(!bytes_equal(&[1, 2, 3], &[1, 2]));
}

#[test]
fn bytes_are_copied_from_an_offset() {
    let data = [10u8, 11, 12, 13, 14, 15];
    let copy: [u8; 3] = read_array(&data, 2);
    assert_eq!(copy, [12, 13, 14]);
    let mut buffer = vec![1u8, 2];
    append_bytes(&mut buffer, &copy);
    assert_eq!(buffer, vec![1, 2, 12, 13, 14]);
}

#[test]
fn record_layout() {
    let record = sample_record();
    let bytes = record.try_to_vec();
    assert_eq!(bytes.len(), MAX_ADMIN_SIZE);
    assert_eq!(MAX_ADMIN_SIZE, 105);
    assert_eq!(&bytes[0..64], &record.public_key[..]);
    assert_eq!(&bytes[64..96], &[9u8; 32][..]);
    assert_eq!(&bytes[96..104], &[8, 7, 6, 5, 4, 3, 2, 1][..]);
    assert_eq!(bytes[104], 1);
}

#[test]
fn record_layout_is_the_borsh_layout() {
    let record = sample_record();
    let expected = (record.public_key, record.contract.to_bytes(), record.nonce, record.is_initialized)
        .try_to_vec()
        .unwrap();
    assert_eq!(record.try_to_vec(), expected);
}

#[test]
fn record_round_trip() {
    let record = sample_record();
    assert_eq!(UpgradeAdmin::deserialize(&record.try_to_vec()), Ok(record));
    let fresh = UpgradeAdmin::deserialize(&[0u8; 105]).unwrap();
    assert_eq!(fresh.public_key, [0u8; 64]);
    assert_eq!(fresh.contract, Address::new_from_array([0u8; 32]));
    assert_eq!(fresh.nonce, 0);
    assert!(!fresh.is_initialized);
}

#[test]
fn record_decoding_ignores_what_follows() {
    let record = sample_record();
    let mut bytes = record.try_to_vec();
    bytes.extend_from_slice(&[0xee; 20]);
    assert_eq!(UpgradeAdmin::deserialize(&bytes), Ok(record));
}

#[test]
fn record_decoding_errors() {
    assert_eq!(UpgradeAdmin::deserialize(&[]), Err(CodecError::UnexpectedLength));
    assert_eq!(UpgradeAdmin::deserialize(&[0u8; 104]), Err(CodecError::UnexpectedLength));
    let mut bytes = sample_record().try_to_vec();
    bytes[104] = 2;
    assert_eq!(UpgradeAdmin::deserialize(&bytes), Err(CodecError::InvalidBool(2)));
    bytes[104] = 255;
    assert_eq!(UpgradeAdmin::deserialize(&bytes), Err(CodecError::InvalidBool(255)));
}

#[test]
fn record_is_written_over_the_start_of_storage() {
    let record = sample_record();
    let mut storage = vec![0x55u8; 110];
    assert_eq!(record.serialize(&mut storage), Ok(()));
    assert_eq!(&storage[..105], &record.try_to_vec()[..]);
    assert_eq!(&storage[105..], &[0x55u8; 5][..]);
    assert_eq!(UpgradeAdmin::deserialize(&storage), Ok(record));
}

#[test]
fn short_storage_is_left_alone() {
    let record = sample_record();
    let mut storage = vec![0x55u8; 104];
    assert_eq!(record.serialize(&mut storage), Err(CodecError::WriteZero));
    assert_eq!(storage, vec![0x55u8; 104]);
}

#[test]
fn record_advances_by_one() {
    let record = sample_record();
    let next = record.advance();
    assert_eq!(next.nonce, record.nonce + 1);
    assert_eq!(next.public_key, record.public_key);
    assert_eq!(next.contract, record.contract);
    assert!(next.is_initialized);
}

#[test]
fn record_rotates_its_key() {
    let record = sample_record();
    let next = record.rotate([0xCD; 64]);
    assert_eq!(next.public_key, [0xCD; 64]);
    assert_eq!(next.nonce, record.nonce + 1);
    assert_eq!(next.contract, record.contract);
    assert!(next.is_initialized);
}

fn sample_instructions() -> Vec<UpgradeInstruction> {
    vec![
        UpgradeInstruction::InitializeAdmin(InitializeAdminArgs {
            public_key: [1u8; 64],
            contract: Address::new_from_array([2u8; 32]),
        }),
        UpgradeInstruction::ChangePublicKey(ChangePublicKeyArgs {
            new_public_key: [3u8; 64],
            signature: [4u8; 64],
            recovery_id: 1,
        }),
        UpgradeInstruction::ChangeAuthority(ChangeAuthorityArgs { signature: [5u8; 64], recovery_id: 0 }),
        UpgradeInstruction::Upgrade(UpgradeArgs { signature: [6u8; 64], recovery_id: 3 }),
    ]
}

#[test]
fn instruction_layout() {
    let encoded: Vec<Vec<u8>> = sample_instructions().iter().map(|i| i.try_to_vec()).collect();
    assert_eq!(encoded[0].len(), 97);
    assert_eq!(encoded[0][0], 0);
    assert_eq!(&encoded[0][1..65], &[1u8; 64][..]);
    assert_eq!(&encoded[0][65..97], &[2u8; 32][..]);
    assert_eq!(encoded[1].len(), 130);
    assert_eq!(encoded[1][0], 1);
    assert_eq!(&encoded[1][1..65], &[3u8; 64][..]);
    assert_eq!(&encoded[1][65..129], &[4u8; 64][..]);
    assert_eq!(encoded[1][129], 1);
    assert_eq!(encoded[2].len(), 66);
    assert_eq!(encoded[2][0], 2);
    assert_eq!(&encoded[2][1..65], &[5u8; 64][..]);
    assert_eq!(encoded[2][65], 0);
    assert_eq!(encoded[3].len(), 66);
    assert_eq!(encoded[3][0], 3);
    assert_eq!(&encoded[3][1..65], &[6u8; 64][..]);
    assert_eq!(encoded[3][65], 3);
}

#[test]
fn instruction_layout_is_the_borsh_layout() {
    let encoded: Vec<Vec<u8>> = sample_instructions().iter().map(|i| i.try_to_vec()).collect();
    assert_eq!(encoded[0], (0u8, [1u8; 64], [2u8; 32]).try_to_vec().unwrap());
    assert_eq!(encoded[1], (1u8, [3u8; 64], [4u8; 64], 1u8).try_to_vec().unwrap());
    assert_eq!(encoded[2], (2u8, [5u8; 64], 0u8).try_to_vec().unwrap());
    assert_eq!(encoded[3], (3u8, [6u8; 64], 3u8).try_to_vec().unwrap());
}

#[test]
fn instruction_round_trip() {
    for instruction in sample_instructions() {
        assert_eq!(UpgradeInstruction::try_from_slice(&instruction.try_to_vec()), Ok(instruction));
    }
}

#[test]
fn instruction_decoding_errors() {
    assert_eq!(UpgradeInstruction::try_from_slice(&[]), Err(CodecError::UnexpectedLength));
    assert_eq!(UpgradeInstruction::try_from_slice(&[4]), Err(CodecError::UnexpectedVariant(4)));
    assert_eq!(UpgradeInstruction::try_from_slice(&[255, 0, 0]), Err(CodecError::UnexpectedVariant(255)));
    for instruction in sample_instructions() {
        let bytes = instruction.try_to_vec();
        assert_eq!(
            UpgradeInstruction::try_from_slice(&bytes[..bytes.len() - 1]),
            Err(CodecError::UnexpectedLength)
        );
        assert_eq!(UpgradeInstruction::try_from_slice(&bytes[..1]), Err(CodecError::UnexpectedLength));
        let mut longer = bytes.clone();
        longer.push(0);
        assert_eq!(UpgradeInstruction::try_from_slice(&longer), Err(CodecError::NotAllBytesRead));
    }
}
