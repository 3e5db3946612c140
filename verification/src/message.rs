//! The bytes that a holder of the authority key signs, and their hash.

use crate::address::Address;
use crate::bytes::append_bytes;
use crate::bytes::be_bytes;
use crate::bytes::lemma_be_value_of_bytes;
use crate::bytes::u64_to_be_bytes;
use vstd::prelude::*;

verus! {

/// The tag that separates this protocol's signatures from all others: the text
/// `solana-upgrade-program`.
pub const HASH_CONSTANT: [u8; 22] = [
    115, 111, 108, 97, 110, 97, 45, 117, 112, 103, 114, 97, 100, 101, 45, 112, 114, 111, 103, 114,
    97, 109,
];

/// The message that authorizes one operation: the resource, the record's nonce as eight bytes
/// with the most significant first, the tag, and what the operation is to put in place (the new
/// key, the new authority, or the buffer to deploy).
pub open spec fn signed_message(contract: Seq<u8>, nonce: u64, payload: Seq<u8>) -> Seq<u8> {
    contract + be_bytes(nonce) + HASH_CONSTANT@ + payload
}

/// Builds the message that authorizes one operation on the record of `contract` at `nonce`.
pub fn build_message(contract: &Address, nonce: u64, payload: &[u8]) -> (message: Vec<u8>)
    ensures
        message@ == signed_message(contract@, nonce, payload@),
{
    let mut message: Vec<u8> = Vec::new();
    append_bytes(&mut message, contract.bytes.as_slice());
    let counter = u64_to_be_bytes(nonce);
    append_bytes(&mut message, counter.as_slice());
    let tag = HASH_CONSTANT;
    append_bytes(&mut message, tag.as_slice());
    append_bytes(&mut message, payload);
    assert(message@ =~= signed_message(contract@, nonce, payload@));
    message
}

/// A message names its resource, its nonce and its payload: two messages are the same only if
/// all three are.
pub proof fn lemma_message_injective(
    contract_a: Seq<u8>,
    nonce_a: u64,
    payload_a: Seq<u8>,
    contract_b: Seq<u8>,
    nonce_b: u64,
    payload_b: Seq<u8>,
)
    requires
        contract_a.len() == contract_b.len(),
        signed_message(contract_a, nonce_a, payload_a) == signed_message(
            contract_b,
            nonce_b,
            payload_b,
        ),
    ensures
        contract_a == contract_b,
        nonce_a == nonce_b,
        payload_a == payload_b,
{
    let a = signed_message(contract_a, nonce_a, payload_a);
    let b = signed_message(contract_b, nonce_b, payload_b);
    let n = contract_a.len() as int;
    assert(contract_a =~= a.subrange(0, n));
    assert(contract_b =~= b.subrange(0, n));
    assert(be_bytes(nonce_a) =~= a.subrange(n, n + 8));
    assert(be_bytes(nonce_b) =~= b.subrange(n, n + 8));
    lemma_be_value_of_bytes(nonce_a);
    lemma_be_value_of_bytes(nonce_b);
    assert(payload_a =~= a.subrange(n + 30, a.len() as int));
    assert(payload_b =~= b.subrange(n + 30, b.len() as int));
}

/// The Keccak-256 digest of `data`: 32 bytes.
pub uninterp spec fn keccak256(data: Seq<u8>) -> Seq<u8>;

/// Calls `solana_program::keccak::hash`. Trusted: the result is the Keccak-256 digest of the
/// bytes given, which `keccak256` names.
#[verifier::external_body]
fn keccak_hash(data: &[u8]) -> (digest: [u8; 32])
    ensures
        digest@ == keccak256(data@),
{
    solana_program::keccak::hash(data).to_bytes()
}

/// The digest that is signed to authorize one operation on the record of `contract` at `nonce`.
pub fn message_hash(contract: &Address, nonce: u64, payload: &[u8]) -> (digest: [u8; 32])
    ensures
        digest@ == keccak256(signed_message(contract@, nonce, payload@)),
{
    let message = build_message(contract, nonce, payload);
    keccak_hash(message.as_slice())
}

} // verus!
