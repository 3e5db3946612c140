//! The authority record and its layout in storage.

use crate::address::Address;
use crate::bytes::append_bytes;
use crate::bytes::le_bytes;
use crate::bytes::le_value;
use crate::bytes::lemma_le_bytes_of_value;
use crate::bytes::lemma_le_value_of_bytes;
use crate::bytes::read_array;
use crate::bytes::u64_from_le_bytes;
use crate::bytes::u64_to_le_bytes;
use crate::error::CodecError;
use vstd::prelude::*;

verus! {

/// The number of bytes that a record takes in storage: the key, the resource, the nonce and the
/// flag.
pub const MAX_ADMIN_SIZE: usize = 105;

/// The authority record of one resource.
#[derive(Clone, Copy, Debug, PartialEq, Eq)]
pub struct UpgradeAdmin {
    /// The secp256k1 public key that alone authorizes operations on the resource.
    pub public_key: [u8; 64],
    /// The resource that the record governs.
    pub contract: Address,
    /// The number of operations authorized so far.
    pub nonce: u64,
    /// Whether the record has been initialized.
    pub is_initialized: bool,
}

/// What a record holds, as plain values.
pub struct UpgradeAdminView {
    pub public_key: Seq<u8>,
    pub contract: Seq<u8>,
    pub nonce: u64,
    pub is_initialized: bool,
}

impl View for UpgradeAdmin {
    type V = UpgradeAdminView;

    open spec fn view(&self) -> UpgradeAdminView {
        UpgradeAdminView {
            public_key: self.public_key@,
            contract: self.contract@,
            nonce: self.nonce,
            is_initialized: self.is_initialized,
        }
    }
}

impl UpgradeAdminView {
    /// The key has 64 bytes and the resource 32.
    pub open spec fn wf(self) -> bool {
        &&& self.public_key.len() == 64
        &&& self.contract.len() == 32
    }

    /// The bytes of the record in storage: the key, the resource, the nonce as eight bytes with
    /// the least significant first, and one byte that is 1 where the record is initialized and 0
    /// where it is not.
    pub open spec fn encode(self) -> Seq<u8> {
        self.public_key + self.contract + le_bytes(self.nonce) + seq![
            if self.is_initialized {
                1u8
            } else {
                0u8
            },
        ]
    }

    /// The record after one more authorized operation.
    pub open spec fn advance(self) -> UpgradeAdminView {
        UpgradeAdminView { nonce: (self.nonce + 1) as u64, ..self }
    }

    /// The record after its key was replaced by `new_public_key`.
    pub open spec fn rotate(self, new_public_key: Seq<u8>) -> UpgradeAdminView {
        UpgradeAdminView { public_key: new_public_key, nonce: (self.nonce + 1) as u64, ..self }
    }
}

/// The record that the first bytes of `data` spell, or why they spell none: `UnexpectedLength`
/// where `data` is shorter than a record, `InvalidBool` where the flag's byte is neither 0 nor 1.
/// Bytes after the record are not looked at.
pub open spec fn decode_record(data: Seq<u8>) -> Result<UpgradeAdminView, CodecError> {
    if data.len() < MAX_ADMIN_SIZE {
        Err(CodecError::UnexpectedLength)
    } else if data[104] > 1 {
        Err(CodecError::InvalidBool(data[104]))
    } else {
        Ok(
            UpgradeAdminView {
                public_key: data.subrange(0, 64),
                contract: data.subrange(64, 96),
                nonce: le_value(data.subrange(96, 104)),
                is_initialized: data[104] == 1,
            },
        )
    }
}

/// The storage after `record` was written over what `data` held: the record's bytes, then the
/// bytes of `data` that lie behind a record.
pub open spec fn stored(data: Seq<u8>, record: UpgradeAdminView) -> Seq<u8>
    recommends
        data.len() >= MAX_ADMIN_SIZE,
{
    record.encode() + data.subrange(MAX_ADMIN_SIZE as int, data.len() as int)
}

/// The view of a decoding's result.
pub open spec fn decoded_view(decoded: Result<UpgradeAdmin, CodecError>) -> Result<
    UpgradeAdminView,
    CodecError,
> {
    match decoded {
        Ok(record) => Ok(record@),
        Err(e) => Err(e),
    }
}

impl UpgradeAdmin {
    /// The bytes of the record in storage.
    pub fn try_to_vec(&self) -> (bytes: Vec<u8>)
        ensures
            bytes@ == self@.encode(),
            bytes@.len() == MAX_ADMIN_SIZE,
    {
        let mut bytes: Vec<u8> = Vec::new();
        append_bytes(&mut bytes, self.public_key.as_slice());
        append_bytes(&mut bytes, self.contract.bytes.as_slice());
        let counter = u64_to_le_bytes(self.nonce);
        append_bytes(&mut bytes, counter.as_slice());
        bytes.push(
            if self.is_initialized {
                1
            } else {
                0
            },
        );
        assert(bytes@ =~= self@.encode());
        bytes
    }

    /// Reads the record that the first bytes of `data` spell.
    pub fn deserialize(data: &[u8]) -> (decoded: Result<UpgradeAdmin, CodecError>)
        ensures
            decoded_view(decoded) == decode_record(data@),
    {
        if data.len() < MAX_ADMIN_SIZE {
            return Err(CodecError::UnexpectedLength);
        }
        let flag = data[104];
        if flag > 1 {
            return Err(CodecError::InvalidBool(flag));
        }
        let public_key: [u8; 64] = read_array(data, 0);
        let contract: [u8; 32] = read_array(data, 64);
        let nonce = u64_from_le_bytes(data, 96);
        Ok(
            UpgradeAdmin {
                public_key,
                contract: Address::new_from_array(contract),
                nonce,
                is_initialized: flag == 1,
            },
        )
    }

    /// Writes the record over the first bytes of `data` and leaves the bytes behind it as they
    /// are. Storage that is too short for a record is left alone and reported.
    pub fn serialize(&self, data: &mut Vec<u8>) -> (written: Result<(), CodecError>)
        ensures
            old(data)@.len() >= MAX_ADMIN_SIZE ==> written is Ok && final(data)@ == stored(
                old(data)@,
                self@,
            ),
            old(data)@.len() < MAX_ADMIN_SIZE ==> written == Err::<(), CodecError>(
                CodecError::WriteZero,
            ) && final(data)@ == old(data)@,
    {
        if data.len() < MAX_ADMIN_SIZE {
            return Err(CodecError::WriteZero);
        }
        let bytes = self.try_to_vec();
        let mut i: usize = 0;
        while i < MAX_ADMIN_SIZE
            invariant
                i <= MAX_ADMIN_SIZE,
                bytes@ == self@.encode(),
                bytes@.len() == MAX_ADMIN_SIZE,
                data@.len() == old(data)@.len(),
                data@.len() >= MAX_ADMIN_SIZE,
                forall|j: int| 0 <= j < i ==> data@[j] == bytes@[j],
                forall|j: int| i <= j < data@.len() ==> data@[j] == old(data)@[j],
            decreases MAX_ADMIN_SIZE - i,
        {
            data[i] = bytes[i];
            i += 1;
        }
        assert(data@ =~= stored(old(data)@, self@));
        Ok(())
    }

    /// The record after its key was replaced by `new_public_key`.
    pub fn rotate(&self, new_public_key: [u8; 64]) -> (next: UpgradeAdmin)
        requires
            self.nonce < u64::MAX,
        ensures
            next@ == self@.rotate(new_public_key@),
            next.nonce == self.nonce + 1,
    {
        UpgradeAdmin {
            public_key: new_public_key,
            contract: self.contract,
            nonce: self.nonce + 1,
            is_initialized: self.is_initialized,
        }
    }

    /// The record after one more authorized operation.
    pub fn advance(&self) -> (next: UpgradeAdmin)
        requires
            self.nonce < u64::MAX,
        ensures
            next@ == self@.advance(),
            next.nonce == self.nonce + 1,
    {
        UpgradeAdmin {
            public_key: self.public_key,
            contract: self.contract,
            nonce: self.nonce + 1,
            is_initialized: self.is_initialized,
        }
    }
}

/// A record that was written is read back as it was.
pub proof fn lemma_decode_of_encode(record: UpgradeAdminView, rest: Seq<u8>)
    requires
        record.wf(),
    ensures
        record.encode().len() == MAX_ADMIN_SIZE,
        decode_record(record.encode() + rest) == Ok::<UpgradeAdminView, CodecError>(record),
{
    let data = record.encode() + rest;
    lemma_le_value_of_bytes(record.nonce);
    assert(data.subrange(0, 64) =~= record.public_key);
    assert(data.subrange(64, 96) =~= record.contract);
    assert(data.subrange(96, 104) =~= le_bytes(record.nonce));
}

/// Storage from which a record was read holds that record's bytes: to write the record back
/// changes nothing.
pub proof fn lemma_encode_of_decode(data: Seq<u8>)
    requires
        decode_record(data) is Ok,
    ensures
        decode_record(data)->Ok_0.wf(),
        stored(data, decode_record(data)->Ok_0) == data,
{
    let record = decode_record(data)->Ok_0;
    lemma_le_bytes_of_value(data.subrange(96, 104));
    assert(stored(data, record) =~= data);
}

/// After a record was written, it is the record that storage spells.
pub proof fn lemma_decode_of_stored(data: Seq<u8>, record: UpgradeAdminView)
    requires
        record.wf(),
    ensures
        decode_record(stored(data, record)) == Ok::<UpgradeAdminView, CodecError>(record),
{
    lemma_decode_of_encode(record, data.subrange(MAX_ADMIN_SIZE as int, data.len() as int));
}

} // verus!
