//! Verification of a signature by recovery of the key that made it.

use crate::bytes::bytes_equal;
use crate::error::UpgradeError;
use vstd::prelude::*;

verus! {

/// The 64-byte secp256k1 public key that made `signature`, of 64 bytes, over `hash`, of 32
/// bytes, as public-key recovery finds it with `recovery_id`; nothing where recovery fails (a
/// recovery id that is none, a signature that is malformed or lies on no point of the curve).
pub uninterp spec fn recovered_key(hash: Seq<u8>, recovery_id: u8, signature: Seq<u8>) -> Option<
    Seq<u8>,
>;

/// The view of a recovery's result.
pub open spec fn key_view(key: Option<[u8; 64]>) -> Option<Seq<u8>> {
    match key {
        Some(k) => Some(k@),
        None => None,
    }
}

/// Calls `solana_program::secp256k1_recover::secp256k1_recover`. Trusted: for a hash of 32 bytes
/// and a signature of 64 bytes the result is the key that `recovered_key` names for the same
/// hash, recovery id and signature, and nothing where the outside function reports an error.
/// The outside function is handed the two lengths that it expects and no others.
#[verifier::external_body]
fn secp256k1_recover(hash: &[u8], recovery_id: u8, signature: &[u8]) -> (key: Option<[u8; 64]>)
    requires
        hash@.len() == 32,
        signature@.len() == 64,
    ensures
        key_view(key) == recovered_key(hash@, recovery_id, signature@),
{
    match solana_program::secp256k1_recover::secp256k1_recover(hash, recovery_id, signature) {
        Ok(key) => Some(key.to_bytes()),
        Err(_) => None,
    }
}

/// Recovers the key that made `sig`, with recovery id `reid`, over `hash`. A hash or a
/// signature of another length than 32 or 64 bytes gives no key, and recovery is not tried.
pub fn recover_signer(hash: &[u8], sig: &[u8], reid: u8) -> (key: Option<[u8; 64]>)
    ensures
        key_view(key) == if hash@.len() == 32 && sig@.len() == 64 {
            recovered_key(hash@, reid, sig@)
        } else {
            None
        },
{
    if hash.len() == 32 && sig.len() == 64 {
        secp256k1_recover(hash, reid, sig)
    } else {
        None
    }
}

/// The verdict on a signature, given what recovery found: accepted where the recovered key is
/// `target_key` byte for byte, `WrongSignature` where it is another key, `InvalidSignature` where
/// recovery found none.
pub open spec fn signature_verdict(recovered: Option<Seq<u8>>, target_key: Seq<u8>) -> Result<
    (),
    UpgradeError,
> {
    match recovered {
        None => Err(UpgradeError::InvalidSignature),
        Some(key) => if key == target_key {
            Ok(())
        } else {
            Err(UpgradeError::WrongSignature)
        },
    }
}

/// Compares the key that recovery found with the key that is expected.
pub fn check_recovered_key(recovered: Option<[u8; 64]>, target_key: &[u8; 64]) -> (verdict: Result<
    (),
    UpgradeError,
>)
    ensures
        verdict == signature_verdict(key_view(recovered), target_key@),
{
    match recovered {
        None => Err(UpgradeError::InvalidSignature),
        Some(key) => {
            if bytes_equal(key.as_slice(), target_key.as_slice()) {
                Ok(())
            } else {
                Err(UpgradeError::WrongSignature)
            }
        },
    }
}

/// Verifies that `sig`, with recovery id `reid`, was made over `hash` by the holder of
/// `target_key`. A hash or a signature of another length than 32 or 64 bytes is an invalid
/// signature.
pub fn verify_ecdsa_signature(hash: &[u8], sig: &[u8], reid: u8, target_key: [u8; 64]) -> (verdict:
    Result<(), UpgradeError>)
    ensures
        verdict == if hash@.len() == 32 && sig@.len() == 64 {
            signature_verdict(recovered_key(hash@, reid, sig@), target_key@)
        } else {
            Err(UpgradeError::InvalidSignature)
        },
{
    let recovered = recover_signer(hash, sig, reid);
    check_recovered_key(recovered, &target_key)
}

} // verus!
