use upgrade_program::address::Address;
use upgrade_program::ecdsa::{check_recovered_key, recover_signer, verify_ecdsa_signature};
use upgrade_program::error::UpgradeError;
use upgrade_program::message::{build_message, message_hash, HASH_CONSTANT};

const PUBLIC_KEY: [u8; 64] = [
    27, 132, 197, 86, 123, 18, 100, 64, 153, 93, 62, 213, 170, 186, 5, 101, 215, 30, 24, 52, 96, 72, 25,
    255, 156, 23, 245, 233, 213, 221, 7, 143, 112, 190, 175, 143, 88, 139, 84, 21, 7, 254, 214, 166, 66,
    197, 171, 66, 223, 223, 129, 32, 167, 246, 57, 222, 81, 34, 212, 122, 105, 168, 232, 209,
];

const HASH_AT_NONCE_0: [u8; 32] = [
    251, 25, 45, 138, 239, 91, 52, 37, 37, 170, 23, 14, 200, 117, 102, 135, 153, 188, 151, 198, 65, 19,
    222, 211, 213, 111, 247, 233, 85, 90, 29, 93,
];

const HASH_AT_NONCE_1: [u8; 32] = [
    64, 17, 27, 237, 255, 32, 255, 51, 107, 43, 117, 189, 228, 147, 232, 124, 137, 169, 128, 197, 214,
    114, 199, 46, 107, 75, 164, 119, 121, 4, 253, 46,
];

const SIGNATURE_AT_NONCE_0: [u8; 64] = [
    72, 213, 35, 211, 165, 114, 71, 210, 154, 201, 1, 209, 233, 217, 216, 84, 41, 216, 58, 251, 247, 98,
    15, 15, 80, 193, 182, 252, 109, 223, 146, 248, 40, 142, 223, 209, 170, 4, 198, 167, 248, 136, 105,
    165, 134, 8, 26, 240, 151, 156, 44, 109, 194, 97, 179, 72, 52, 180, 158, 129, 44, 20, 7, 11,
];

fn contract() -> Address {
    let mut bytes = [0u8; 32];
    for (i, byte) in bytes.iter_mut().enumerate() {
        *byte = i as u8;
    }
    Address::new_from_array(bytes)
}

fn secret() -> libsecp256k1::SecretKey {
    libsecp256k1::SecretKey::parse(&[1u8; 32]).unwrap()
}

fn sign(hash: &[u8; 32]) -> ([u8; 64], u8) {
    let (signature, recovery_id) = libsecp256k1::sign(&libsecp256k1::Message::parse(hash), &secret());
    (signature.serialize(), recovery_id.serialize())
}

#[test]
fn tag_is_the_text() {
    assert_eq!(&HASH_CONSTANT[..], "solana-upgrade-program".as_bytes());
}

#[test]
fn message_is_resource_nonce_tag_payload() {
    let message = build_message(&contract(), 0x0102030405060708, &[0xAB; 64]);
    assert_eq!(message.len(), 32 + 8 + 22 + 64);
    assert_eq!(&message[..32], &contract().to_bytes()[..]);
    assert_eq!(&message[32..40], &[1, 2, 3, 4, 5, 6, 7, 8][..]);
    assert_eq!(&message[40..62], "solana-upgrade-program".as_bytes());
    assert_eq!(&message[62..], &[0xAB; 64][..]);
}

#[test]
fn message_with_empty_payload() {
    let message = build_message(&contract(), 0, &[]);
    assert_eq!(message.len(), 62);
    assert_eq!(&message[32..40], &[0u8; 8][..]);
}

#[test]
fn message_hash_is_keccak_256() {
    assert_eq!(message_hash(&contract(), 0, &[0xAB; 64]), HASH_AT_NONCE_0);
    assert_eq!(message_hash(&contract(), 1, &[0xAB; 64]), HASH_AT_NONCE_1);
}

#[test]
fn message_hash_is_the_hosts_hash_of_the_message() {
    let message = build_message(&contract(), 77, &[1, 2, 3]);
    assert_eq!(
        message_hash(&contract(), 77, &[1, 2, 3]),
        solana_program::keccak::hash(&message).to_bytes()
    );
}

#[test]
fn message_hash_binds_resource_nonce_and_payload() {
    let base = message_hash(&contract(), 5, &[9; 32]);
    assert_ne!(base, message_hash(&contract(), 6, &[9; 32]));
    assert_ne!(base, message_hash(&Address::new_from_array([1; 32]), 5, &[9; 32]));
    assert_ne!(base, message_hash(&contract(), 5, &[8; 32]));
}

#[test]
fn public_key_of_the_test_secret() {
    let key = libsecp256k1::PublicKey::from_secret_key(&secret()).serialize();
    assert_eq!(&key[1..], &PUBLIC_KEY[..]);
}

#[test]
fn signature_of_the_key_is_accepted() {
    assert_eq!(verify_ecdsa_signature(&HASH_AT_NONCE_0, &SIGNATURE_AT_NONCE_0, 0, PUBLIC_KEY), Ok(()));
}

#[test]
fn fresh_signature_of_the_key_is_accepted() {
    let hash = message_hash(&contract(), 3, &[5; 32]);
    let (signature, recovery_id) = sign(&hash);
    assert_eq!(verify_ecdsa_signature(&hash, &signature, recovery_id, PUBLIC_KEY), Ok(()));
}

#[test]
fn signature_over_another_hash_is_wrong() {
    assert_eq!(
        verify_ecdsa_signature(&HASH_AT_NONCE_1, &SIGNATURE_AT_NONCE_0, 0, PUBLIC_KEY),
        Err(UpgradeError::WrongSignature)
    );
}

#[test]
fn signature_of_another_key_is_wrong() {
    let mut other = PUBLIC_KEY;
    other[63] ^= 1;
    assert_eq!(
        verify_ecdsa_signature(&HASH_AT_NONCE_0, &SIGNATURE_AT_NONCE_0, 0, other),
        Err(UpgradeError::WrongSignature)
    );
}

#[test]
fn other_recovery_id_gives_another_key() {
    assert_eq!(
        verify_ecdsa_signature(&HASH_AT_NONCE_0, &SIGNATURE_AT_NONCE_0, 1, PUBLIC_KEY),
        Err(UpgradeError::WrongSignature)
    );
}

#[test]
fn malformed_input_is_invalid() {
    assert_eq!(
        verify_ecdsa_signature(&HASH_AT_NONCE_0, &SIGNATURE_AT_NONCE_0, 4, PUBLIC_KEY),
        Err(UpgradeError::InvalidSignature)
    );
    assert_eq!(
        verify_ecdsa_signature(&HASH_AT_NONCE_0[..31], &SIGNATURE_AT_NONCE_0, 0, PUBLIC_KEY),
        Err(UpgradeError::InvalidSignature)
    );
    assert_eq!(
        verify_ecdsa_signature(&HASH_AT_NONCE_0, &SIGNATURE_AT_NONCE_0[..63], 0, PUBLIC_KEY),
        Err(UpgradeError::InvalidSignature)
    );
    assert_eq!(
        verify_ecdsa_signature(&HASH_AT_NONCE_0, &[0u8; 64], 0, PUBLIC_KEY),
        Err(UpgradeError::InvalidSignature)
    );
    assert_eq!(
        verify_ecdsa_signature(&HASH_AT_NONCE_0, &[255u8; 64], 0, PUBLIC_KEY),
        Err(UpgradeError::InvalidSignature)
    );
}

#[test]
fn verdict_on_a_recovered_key() {
    assert_eq!(check_recovered_key(Some(PUBLIC_KEY), &PUBLIC_KEY), Ok(()));
    assert_eq!(check_recovered_key(Some([0u8; 64]), &PUBLIC_KEY), Err(UpgradeError::WrongSignature));
    assert_eq!(check_recovered_key(None, &PUBLIC_KEY), Err(UpgradeError::InvalidSignature));
}

#[test]
fn verification_is_repeatable() {
    for _ in 0..3 {
        assert_eq!(verify_ecdsa_signature(&HASH_AT_NONCE_0, &SIGNATURE_AT_NONCE_0, 0, PUBLIC_KEY), Ok(()));
        assert_eq!(
            verify_ecdsa_signature(&HASH_AT_NONCE_1, &SIGNATURE_AT_NONCE_0, 0, PUBLIC_KEY),
            Err(UpgradeError::WrongSignature)
        );
    }
}

#[test]
fn signer_is_recovered() {
    assert_eq!(recover_signer(&HASH_AT_NONCE_0, &SIGNATURE_AT_NONCE_0, 0), Some(PUBLIC_KEY));
    let other = recover_signer(&HASH_AT_NONCE_1, &SIGNATURE_AT_NONCE_0, 0);
    assert!(other.is_some());
    assert_ne!(other, Some(PUBLIC_KEY));
    let hash = message_hash(&contract(), 8, &[4; 10]);
    let (signature, recovery_id) = sign(&hash);
    assert_eq!(recover_signer(&hash, &signature, recovery_id), Some(PUBLIC_KEY));
}

#[test]
fn no_signer_where_recovery_fails() {
    assert_eq!(recover_signer(&HASH_AT_NONCE_0, &SIGNATURE_AT_NONCE_0, 4), None);
    assert_eq!(recover_signer(&HASH_AT_NONCE_0, &[0u8; 64], 0), None);
    assert_eq!(recover_signer(&HASH_AT_NONCE_0, &[255u8; 64], 1), None);
}

#[test]
fn no_signer_for_other_lengths() {
    assert_eq!(recover_signer(&[], &[], 0), None);
    assert_eq!(recover_signer(&HASH_AT_NONCE_0[..31], &SIGNATURE_AT_NONCE_0, 0), None);
    assert_eq!(recover_signer(&HASH_AT_NONCE_0, &SIGNATURE_AT_NONCE_0[..63], 0), None);
    let mut long_hash = HASH_AT_NONCE_0.to_vec();
    long_hash.push(0);
    assert_eq!(recover_signer(&long_hash, &SIGNATURE_AT_NONCE_0, 0), None);
    let mut long_signature = SIGNATURE_AT_NONCE_0.to_vec();
    long_signature.push(0);
    assert_eq!(recover_signer(&HASH_AT_NONCE_0, &long_signature, 0), None);
    assert_eq!(
        verify_ecdsa_signature(&long_hash, &SIGNATURE_AT_NONCE_0, 0, PUBLIC_KEY),
        Err(UpgradeError::InvalidSignature)
    );
    assert_eq!(
        verify_ecdsa_signature(&HASH_AT_NONCE_0, &long_signature, 0, PUBLIC_KEY),
        Err(UpgradeError::InvalidSignature)
    );
    assert_eq!(verify_ecdsa_signature(&[], &[], 0, PUBLIC_KEY), Err(UpgradeError::InvalidSignature));
}
