//! What holds of the handlers whatever the derivations, the hash and the recovery give.

use crate::address::address_binding;
use crate::address::admin_address;
use crate::address::Address;
use crate::ecdsa::signature_verdict;
use crate::error::CodecError;
use crate::error::ProcessError;
use crate::error::UpgradeError;
use crate::instructions::decode_instruction;
use crate::instructions::lemma_decode_of_encoded_instruction;
use crate::instructions::lemma_encode_of_decoded_instruction;
use crate::instructions::UpgradeInstructionView;
use crate::message::lemma_message_injective;
use crate::message::signed_message;
use crate::processor::authorization;
use crate::processor::change_authority_outcome;
use crate::processor::change_public_key_outcome;
use crate::processor::init_admin_outcome;
use crate::processor::initialized_record;
use crate::processor::instruction_outcome;
use crate::processor::recovered_signer;
use crate::processor::upgrade_outcome;
use crate::processor::AllocationView;
use crate::processor::StepView;
use crate::state::decode_record;
use crate::state::lemma_decode_of_encode;
use crate::state::lemma_decode_of_stored;
use crate::state::lemma_encode_of_decode;
use crate::state::stored;
use crate::state::UpgradeAdminView;
use vstd::prelude::*;

verus! {

/// The record that the host persists for a handler's result: the one that the step names, and
/// none where the handler refused or storage is still to be allocated.
pub open spec fn persisted_record(outcome: Result<StepView, ProcessError>) -> Option<
    UpgradeAdminView,
> {
    match outcome {
        Ok(StepView::Store(record)) => Some(record),
        Ok(StepView::Invoke(_, record)) => Some(record),
        _ => None,
    }
}

/// What the record's storage holds after the host did what a handler's result asks for.
pub open spec fn storage_after(data: Seq<u8>, outcome: Result<StepView, ProcessError>) -> Seq<u8> {
    match persisted_record(outcome) {
        Some(record) => stored(data, record),
        None => data,
    }
}

/// Whether `error` is one of the two ways in which a signature is rejected.
pub open spec fn signature_rejected(error: ProcessError) -> bool {
    error == ProcessError::Upgrade(UpgradeError::WrongSignature) || error == ProcessError::Upgrade(
        UpgradeError::InvalidSignature,
    )
}

/// A signature is bound to the message it was made for. Let `signature` let an operation
/// through on `signed`. On any initialized record `other` that differs from `signed` in its
/// resource or in its nonce, the message to verify is another one, and the operation is
/// rejected for its signature unless recovery over that other message's hash yields the key of
/// `other` as well: as `WrongSignature` where recovery yields a key, as `InvalidSignature`
/// where it yields none.
pub proof fn law_signature_bound_to_message(
    signed: UpgradeAdminView,
    other: UpgradeAdminView,
    payload: Seq<u8>,
    signature: Seq<u8>,
    recovery_id: u8,
)
    requires
        signed.wf(),
        other.wf(),
        other.is_initialized,
        other.contract != signed.contract || other.nonce != signed.nonce,
        authorization(signed, recovered_signer(signed, payload, signature, recovery_id)) is Ok,
        recovered_signer(other, payload, signature, recovery_id) != Some(other.public_key),
    ensures
        signed_message(other.contract, other.nonce, payload) != signed_message(
            signed.contract,
            signed.nonce,
            payload,
        ),
        authorization(other, recovered_signer(other, payload, signature, recovery_id)) is Err,
        signature_rejected(
            authorization(other, recovered_signer(other, payload, signature, recovery_id))->Err_0,
        ),
        authorization(other, recovered_signer(other, payload, signature, recovery_id)) == Err::<
            (),
            ProcessError,
        >(
            ProcessError::Upgrade(
                if recovered_signer(other, payload, signature, recovery_id) is Some {
                    UpgradeError::WrongSignature
                } else {
                    UpgradeError::InvalidSignature
                },
            ),
        ),
{
    if signed_message(other.contract, other.nonce, payload) == signed_message(
        signed.contract,
        signed.nonce,
        payload,
    ) {
        lemma_message_injective(
            other.contract,
            other.nonce,
            payload,
            signed.contract,
            signed.nonce,
            payload,
        );
    }
}

/// Replay is rejected. A signature that let an operation through when the record stood at one
/// nonce is rejected, and nothing is persisted, once the record has advanced past that nonce,
/// unless recovery over the hash of the later message yields the record's key as well.
pub proof fn law_replay_rejected(
    record: UpgradeAdminView,
    later: UpgradeAdminView,
    payload: Seq<u8>,
    signature: Seq<u8>,
    recovery_id: u8,
)
    requires
        record.wf(),
        later.wf(),
        later.is_initialized,
        later.contract == record.contract,
        later.nonce > record.nonce,
        authorization(record, recovered_signer(record, payload, signature, recovery_id)) is Ok,
        recovered_signer(later, payload, signature, recovery_id) != Some(later.public_key),
    ensures
        authorization(later, recovered_signer(later, payload, signature, recovery_id)) is Err,
        signature_rejected(
            authorization(later, recovered_signer(later, payload, signature, recovery_id))->Err_0,
        ),
        forall|accounts: Seq<Address>, derived: Option<(Seq<u8>, u8)>|
            #![trigger change_public_key_outcome(
                accounts,
                Ok(later),
                derived,
                recovered_signer(later, payload, signature, recovery_id),
                payload,
            )]
            change_public_key_outcome(
                accounts,
                Ok(later),
                derived,
                recovered_signer(later, payload, signature, recovery_id),
                payload,
            ) is Err,
        forall|
            accounts: Seq<Address>,
            derived: Option<(Seq<u8>, u8)>,
            program_data: Option<(Seq<u8>, u8)>,
        |
            #![trigger change_authority_outcome(
                accounts,
                Ok(later),
                derived,
                recovered_signer(later, payload, signature, recovery_id),
                program_data,
            )]
            change_authority_outcome(
                accounts,
                Ok(later),
                derived,
                recovered_signer(later, payload, signature, recovery_id),
                program_data,
            ) is Err,
        forall|
            accounts: Seq<Address>,
            derived: Option<(Seq<u8>, u8)>,
            program_data: Option<(Seq<u8>, u8)>,
        |
            #![trigger upgrade_outcome(
                accounts,
                derived,
                Ok(later),
                recovered_signer(later, payload, signature, recovery_id),
                program_data,
            )]
            upgrade_outcome(
                accounts,
                derived,
                Ok(later),
                recovered_signer(later, payload, signature, recovery_id),
                program_data,
            ) is Err,
{
    law_signature_bound_to_message(record, later, payload, signature, recovery_id);
}

/// The replay of an operation is refused as `WrongSignature`. Where the replayed operation
/// names its accounts at the record's derived address, and recovery over the hash of the later
/// message yields a key that is not the record's, each of the three handlers answers
/// `WrongSignature`.
pub proof fn law_replay_is_wrong_signature(
    accounts: Seq<Address>,
    later: UpgradeAdminView,
    derived: Option<(Seq<u8>, u8)>,
    recovered: Seq<u8>,
    program_data: Option<(Seq<u8>, u8)>,
    new_public_key: Seq<u8>,
)
    requires
        later.is_initialized,
        recovered != later.public_key,
        accounts.len() >= 1,
        address_binding(derived, accounts[0]@, UpgradeError::WrongSeeds) is Ok,
    ensures
        change_public_key_outcome(accounts, Ok(later), derived, Some(recovered), new_public_key)
            == Err::<StepView, ProcessError>(ProcessError::Upgrade(UpgradeError::WrongSignature)),
        accounts.len() >= 3 ==> change_authority_outcome(
            accounts,
            Ok(later),
            derived,
            Some(recovered),
            program_data,
        ) == Err::<StepView, ProcessError>(ProcessError::Upgrade(UpgradeError::WrongSignature)),
        accounts.len() >= 7 ==> upgrade_outcome(
            accounts,
            derived,
            Ok(later),
            Some(recovered),
            program_data,
        ) == Err::<StepView, ProcessError>(ProcessError::Upgrade(UpgradeError::WrongSignature)),
{
}

/// A signature does not transfer between resources. A signature that let an operation through
/// on the record of one resource is rejected on the record of another resource, even where
/// both hold the same key and stand at the same nonce, unless recovery over the hash of the
/// other resource's message yields that key as well.
pub proof fn law_cross_resource_rejected(
    record_a: UpgradeAdminView,
    record_b: UpgradeAdminView,
    payload: Seq<u8>,
    signature: Seq<u8>,
    recovery_id: u8,
)
    requires
        record_a.wf(),
        record_b.wf(),
        record_b.is_initialized,
        record_b.contract != record_a.contract,
        authorization(record_a, recovered_signer(record_a, payload, signature, recovery_id)) is Ok,
        recovered_signer(record_b, payload, signature, recovery_id) != Some(record_b.public_key),
    ensures
        signed_message(record_b.contract, record_b.nonce, payload) != signed_message(
            record_a.contract,
            record_a.nonce,
            payload,
        ),
        authorization(record_b, recovered_signer(record_b, payload, signature, recovery_id)) is Err,
        signature_rejected(
            authorization(
                record_b,
                recovered_signer(record_b, payload, signature, recovery_id),
            )->Err_0,
        ),
{
    law_signature_bound_to_message(record_a, record_b, payload, signature, recovery_id);
}

/// The record that an initialization persists: the key and the resource, at nonce 0.
pub open spec fn fresh_record(public_key: Seq<u8>, contract: Seq<u8>) -> UpgradeAdminView {
    UpgradeAdminView { public_key, contract, nonce: 0, is_initialized: true }
}

/// A record is initialized once. After an initialization was persisted, the storage spells its
/// record, and any further `InitializeAdmin` is refused, whatever key and resource it brings,
/// before any storage is allocated, so that the storage goes on to spell the record of the
/// first: its key, its resource, nonce 0. Where the further one names its four accounts and the
/// record's address is the one derived for its resource, the refusal is `AlreadyInUse`. The
/// initialization's second step, on the allocated storage, refuses it as `AlreadyInUse` too.
pub proof fn law_single_initialization(
    program_id: Seq<u8>,
    accounts: Seq<Address>,
    data: Seq<u8>,
    first_key: Seq<u8>,
    first_contract: Seq<u8>,
    input: Seq<u8>,
)
    requires
        first_key.len() == 64,
        first_contract.len() == 32,
        initialized_record(data, first_key, first_contract) is Ok,
        decode_instruction(input) is Ok,
        decode_instruction(input)->Ok_0 is InitializeAdmin,
    ensures
        initialized_record(data, first_key, first_contract) == Ok::<
            UpgradeAdminView,
            ProcessError,
        >(fresh_record(first_key, first_contract)),
        decode_record(stored(data, fresh_record(first_key, first_contract))) == Ok::<
            UpgradeAdminView,
            CodecError,
        >(fresh_record(first_key, first_contract)),
        instruction_outcome(
            program_id,
            accounts,
            stored(data, fresh_record(first_key, first_contract)),
            input,
        ) is Err,
        storage_after(
            stored(data, fresh_record(first_key, first_contract)),
            instruction_outcome(
                program_id,
                accounts,
                stored(data, fresh_record(first_key, first_contract)),
                input,
            ),
        ) == stored(data, fresh_record(first_key, first_contract)),
        accounts.len() >= 4 && address_binding(
            admin_address(program_id, decode_instruction(input)->Ok_0->contract),
            accounts[0]@,
            UpgradeError::WrongAdmin,
        ) is Ok ==> instruction_outcome(
            program_id,
            accounts,
            stored(data, fresh_record(first_key, first_contract)),
            input,
        ) == Err::<StepView, ProcessError>(ProcessError::Upgrade(UpgradeError::AlreadyInUse)),
        initialized_record(
            stored(data, fresh_record(first_key, first_contract)),
            decode_instruction(input)->Ok_0->public_key,
            decode_instruction(input)->Ok_0->contract,
        ) == Err::<UpgradeAdminView, ProcessError>(
            ProcessError::Upgrade(UpgradeError::AlreadyInUse),
        ),
{
    lemma_decode_of_stored(data, fresh_record(first_key, first_contract));
}

/// One operation as the host receives it.
pub struct Call {
    pub program_id: Seq<u8>,
    pub accounts: Seq<Address>,
    pub input: Seq<u8>,
}

/// What the storage holds after the host took `calls` in turn, each of them accepted and
/// persisted; nothing where one of them was refused or persisted no record.
pub open spec fn run(data: Seq<u8>, calls: Seq<Call>) -> Option<Seq<u8>>
    decreases calls.len(),
{
    if calls.len() == 0 {
        Some(data)
    } else {
        match run(data, calls.drop_last()) {
            None => None,
            Some(before) => {
                let call = calls.last();
                let outcome = instruction_outcome(
                    call.program_id,
                    call.accounts,
                    before,
                    call.input,
                );
                if persisted_record(outcome) is Some {
                    Some(storage_after(before, outcome))
                } else {
                    None
                }
            },
        }
    }
}

/// An operation that persists a record had a record in storage, and persists that record at the
/// next nonce, with its resource and its flag as they were.
pub proof fn lemma_persisted_advances(
    program_id: Seq<u8>,
    accounts: Seq<Address>,
    data: Seq<u8>,
    input: Seq<u8>,
)
    requires
        persisted_record(instruction_outcome(program_id, accounts, data, input)) is Some,
    ensures
        decode_record(data) is Ok,
        decode_record(data)->Ok_0.nonce < u64::MAX,
        persisted_record(instruction_outcome(program_id, accounts, data, input))->Some_0.wf(),
        persisted_record(instruction_outcome(program_id, accounts, data, input))->Some_0.nonce
            == decode_record(data)->Ok_0.nonce + 1,
        persisted_record(instruction_outcome(program_id, accounts, data, input))->Some_0.contract
            == decode_record(data)->Ok_0.contract,
        persisted_record(
            instruction_outcome(program_id, accounts, data, input),
        )->Some_0.is_initialized,
        decode_record(data)->Ok_0.is_initialized,
{
    lemma_encode_of_decoded_instruction(input);
}

/// Where all of `calls` were accepted and persisted, so were the first `count` of them.
proof fn lemma_prefix_runs(data: Seq<u8>, calls: Seq<Call>, count: int)
    requires
        run(data, calls) is Some,
        0 <= count <= calls.len(),
    ensures
        run(data, calls.subrange(0, count)) is Some,
    decreases calls.len(),
{
    if count == calls.len() {
        assert(calls.subrange(0, count) =~= calls);
    } else {
        lemma_prefix_runs(data, calls.drop_last(), count);
        assert(calls.drop_last().subrange(0, count) =~= calls.subrange(0, count));
    }
}

/// After operations that were all accepted and persisted, the record's nonce is its nonce
/// before them plus their number, and its resource is the same.
proof fn lemma_nonce_counts(data: Seq<u8>, calls: Seq<Call>)
    requires
        decode_record(data) is Ok,
        run(data, calls) is Some,
    ensures
        decode_record(run(data, calls)->Some_0) is Ok,
        decode_record(run(data, calls)->Some_0)->Ok_0.nonce == decode_record(data)->Ok_0.nonce
            + calls.len(),
        decode_record(run(data, calls)->Some_0)->Ok_0.contract == decode_record(
            data,
        )->Ok_0.contract,
    decreases calls.len(),
{
    if calls.len() > 0 {
        let earlier = calls.drop_last();
        lemma_nonce_counts(data, earlier);
        let before = run(data, earlier)->Some_0;
        let call = calls.last();
        lemma_persisted_advances(call.program_id, call.accounts, before, call.input);
        let outcome = instruction_outcome(call.program_id, call.accounts, before, call.input);
        lemma_decode_of_stored(before, persisted_record(outcome)->Some_0);
    }
}

/// The nonce counts the operations. After any number of operations on one record that were
/// accepted and persisted, the record's nonce is its nonce before them plus their number, and
/// the record still governs the same resource. The same holds after each of them: every
/// operation finds the nonce one above the nonce that the operation before it found.
pub proof fn law_monotonic_nonce(data: Seq<u8>, calls: Seq<Call>)
    requires
        decode_record(data) is Ok,
        run(data, calls) is Some,
    ensures
        decode_record(run(data, calls)->Some_0) is Ok,
        decode_record(run(data, calls)->Some_0)->Ok_0.nonce == decode_record(data)->Ok_0.nonce
            + calls.len(),
        decode_record(run(data, calls)->Some_0)->Ok_0.contract == decode_record(
            data,
        )->Ok_0.contract,
        forall|count: int|
            #![trigger calls.subrange(0, count)]
            0 <= count <= calls.len() ==> {
                &&& run(data, calls.subrange(0, count)) is Some
                &&& decode_record(run(data, calls.subrange(0, count))->Some_0) is Ok
                &&& decode_record(run(data, calls.subrange(0, count))->Some_0)->Ok_0.nonce
                    == decode_record(data)->Ok_0.nonce + count
            },
{
    lemma_nonce_counts(data, calls);
    assert forall|count: int| 0 <= count <= calls.len() implies {
        &&& run(data, #[trigger] calls.subrange(0, count)) is Some
        &&& decode_record(run(data, calls.subrange(0, count))->Some_0) is Ok
        &&& decode_record(run(data, calls.subrange(0, count))->Some_0)->Ok_0.nonce == decode_record(
            data,
        )->Ok_0.nonce + count
    } by {
        lemma_prefix_runs(data, calls, count);
        lemma_nonce_counts(data, calls.subrange(0, count));
    }
}

/// The binding of the record's address comes before the signature. Where the address that the
/// operation supplies is not the one derived for the resource, the operation is refused for
/// that, as `WrongAdmin` on initialization and as `WrongSeeds` else, whatever the signature is
/// and whatever recovery makes of it. The operation must name the accounts it needs, and, where
/// the resource is the one that the record holds, the storage must spell a record.
pub proof fn law_address_binding_first(
    program_id: Seq<u8>,
    accounts: Seq<Address>,
    record: UpgradeAdminView,
    derived: (Seq<u8>, u8),
    recovered: Option<Seq<u8>>,
    program_data: Option<(Seq<u8>, u8)>,
    key: Seq<u8>,
    contract: Seq<u8>,
)
    requires
        accounts.len() >= 1,
        derived.0 != accounts[0]@,
    ensures
        accounts.len() >= 4 ==> forall|decoded: Result<UpgradeAdminView, CodecError>|
            #![trigger init_admin_outcome(program_id, accounts, decoded, Some(derived), key, contract)]
            init_admin_outcome(program_id, accounts, decoded, Some(derived), key, contract) == Err::<
                AllocationView,
                ProcessError,
            >(ProcessError::Upgrade(UpgradeError::WrongAdmin)),
        change_public_key_outcome(accounts, Ok(record), Some(derived), recovered, key) == Err::<
            StepView,
            ProcessError,
        >(ProcessError::Upgrade(UpgradeError::WrongSeeds)),
        accounts.len() >= 3 ==> change_authority_outcome(
            accounts,
            Ok(record),
            Some(derived),
            recovered,
            program_data,
        ) == Err::<StepView, ProcessError>(ProcessError::Upgrade(UpgradeError::WrongSeeds)),
        accounts.len() >= 7 ==> forall|decoded: Result<UpgradeAdminView, CodecError>|
            #![trigger upgrade_outcome(accounts, Some(derived), decoded, recovered, program_data)]
            upgrade_outcome(accounts, Some(derived), decoded, recovered, program_data) == Err::<
                StepView,
                ProcessError,
            >(ProcessError::Upgrade(UpgradeError::WrongSeeds)),
{
}

/// An operation is persisted whole or not at all. Where the signature is rejected, the handler
/// names no record to persist and no invocation to run, so the storage holds after the
/// operation, byte for byte, what it held before.
pub proof fn law_all_or_nothing(
    accounts: Seq<Address>,
    data: Seq<u8>,
    derived: Option<(Seq<u8>, u8)>,
    recovered: Option<Seq<u8>>,
    program_data: Option<(Seq<u8>, u8)>,
    new_public_key: Seq<u8>,
)
    requires
        decode_record(data) is Ok,
        signature_verdict(recovered, decode_record(data)->Ok_0.public_key) is Err,
    ensures
        change_public_key_outcome(accounts, decode_record(data), derived, recovered, new_public_key)
            is Err,
        change_authority_outcome(accounts, decode_record(data), derived, recovered, program_data)
            is Err,
        upgrade_outcome(accounts, derived, decode_record(data), recovered, program_data) is Err,
        storage_after(
            data,
            change_public_key_outcome(
                accounts,
                decode_record(data),
                derived,
                recovered,
                new_public_key,
            ),
        ) == data,
        storage_after(
            data,
            change_authority_outcome(accounts, decode_record(data), derived, recovered, program_data),
        ) == data,
        storage_after(
            data,
            upgrade_outcome(accounts, derived, decode_record(data), recovered, program_data),
        ) == data,
{
}

/// Whatever a handler refuses leaves the storage as it was.
pub proof fn law_refusal_persists_nothing(
    program_id: Seq<u8>,
    accounts: Seq<Address>,
    data: Seq<u8>,
    input: Seq<u8>,
)
    requires
        instruction_outcome(program_id, accounts, data, input) is Err,
    ensures
        storage_after(data, instruction_outcome(program_id, accounts, data, input)) == data,
{
}

/// The record's layout loses nothing. A record that was written is read back as it was,
/// whatever follows it in storage; and storage that spells a record holds that record's bytes,
/// so that to write the record back changes nothing.
pub proof fn law_record_round_trip(record: UpgradeAdminView, rest: Seq<u8>, data: Seq<u8>)
    requires
        record.wf(),
    ensures
        decode_record(record.encode() + rest) == Ok::<UpgradeAdminView, CodecError>(record),
        decode_record(data) is Ok ==> stored(data, decode_record(data)->Ok_0) == data,
{
    lemma_decode_of_encode(record, rest);
    if decode_record(data) is Ok {
        lemma_encode_of_decode(data);
    }
}

/// The operations' layout loses nothing. An operation that was written is read back as it was,
/// and bytes that spell an operation are the bytes of that operation.
pub proof fn law_instruction_round_trip(instruction: UpgradeInstructionView, input: Seq<u8>)
    requires
        instruction.wf(),
    ensures
        decode_instruction(instruction.encode()) == Ok::<UpgradeInstructionView, CodecError>(
            instruction,
        ),
        decode_instruction(input) is Ok ==> decode_instruction(input)->Ok_0.encode() == input,
{
    lemma_decode_of_encoded_instruction(instruction);
    if decode_instruction(input) is Ok {
        lemma_encode_of_decoded_instruction(input);
    }
}

} // verus!
