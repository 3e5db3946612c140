//! The handlers of the four operations. A handler decides; the host acts: it allocates storage,
//! runs invocations and persists records as the handler's result tells it to.

use crate::address::address_binding;
use crate::address::admin_address;
use crate::address::admin_signer_seeds;
use crate::address::check_admin_address;
use crate::address::find_admin_address;
use crate::address::find_program_data_address;
use crate::address::program_data_address;
use crate::address::signer_seeds;
use crate::address::Address;
use crate::address::Seeds;
use crate::ecdsa::recovered_key;
use crate::ecdsa::signature_verdict;
use crate::ecdsa::verify_ecdsa_signature;
use crate::error::CodecError;
use crate::error::ProcessError;
use crate::error::UpgradeError;
use crate::host::create_account;
use crate::host::create_account_instruction;
use crate::host::set_upgrade_authority;
use crate::host::set_upgrade_authority_instruction;
use crate::host::upgrade;
use crate::host::upgrade_instruction;
use crate::host::Invocation;
use crate::host::InvocationView;
use crate::instructions::decode_instruction;
use crate::instructions::UpgradeInstruction;
use crate::instructions::UpgradeInstructionView;
use crate::message::keccak256;
use crate::message::message_hash;
use crate::message::signed_message;
use crate::state::decode_record;
use crate::state::UpgradeAdmin;
use crate::state::UpgradeAdminView;
use crate::state::MAX_ADMIN_SIZE;
use vstd::prelude::*;

verus! {

/// Storage that the host is to allocate for a record that is being initialized.
#[derive(Clone, Debug, PartialEq, Eq)]
pub struct Allocation {
    /// Who pays for the storage.
    pub payer: Address,
    /// The address of the record.
    pub account: Address,
    /// The number of bytes to allocate.
    pub space: u64,
    /// The program that is to own the storage.
    pub owner: Address,
    /// The seeds with which the record's address signs for its creation.
    pub signer_seeds: Seeds,
    /// The key that the record is to hold.
    pub public_key: [u8; 64],
    /// The resource that the record is to govern.
    pub contract: Address,
}

/// What an allocation holds, as plain values.
pub struct AllocationView {
    pub payer: Seq<u8>,
    pub account: Seq<u8>,
    pub space: u64,
    pub owner: Seq<u8>,
    pub signer_seeds: Seq<Seq<u8>>,
    pub public_key: Seq<u8>,
    pub contract: Seq<u8>,
}

impl View for Allocation {
    type V = AllocationView;

    open spec fn view(&self) -> AllocationView {
        AllocationView {
            payer: self.payer@,
            account: self.account@,
            space: self.space,
            owner: self.owner@,
            signer_seeds: self.signer_seeds@,
            public_key: self.public_key@,
            contract: self.contract@,
        }
    }
}

/// What the host is to do for an operation that a handler accepted.
#[derive(Clone, Debug, PartialEq, Eq)]
pub enum Step {
    /// Allocate the storage, then persist the record that `Allocation::complete` gives for
    /// what the storage holds.
    Allocate(Allocation),
    /// Run the invocation; if it succeeds, persist the record, and if it fails, persist nothing:
    /// `Step::after_invocation` tells which.
    Invoke(Invocation, UpgradeAdmin),
    /// Persist the record.
    Store(UpgradeAdmin),
}

/// What a step holds, as plain values.
pub enum StepView {
    Allocate(AllocationView),
    Invoke(InvocationView, UpgradeAdminView),
    Store(UpgradeAdminView),
}

impl View for Step {
    type V = StepView;

    open spec fn view(&self) -> StepView {
        match *self {
            Step::Allocate(allocation) => StepView::Allocate(allocation@),
            Step::Invoke(invocation, record) => StepView::Invoke(invocation@, record@),
            Step::Store(record) => StepView::Store(record@),
        }
    }
}

impl Step {
    /// The record that the host is to persist once it did what the step asks of it: the record
    /// of a step that only stores; the record of a step that invokes, where the invocation
    /// succeeded; none where the invocation failed, and none where storage is to be allocated,
    /// for then `Allocation::complete` names the record.
    pub open spec fn record_after(self, succeeded: bool) -> Option<UpgradeAdmin> {
        match self {
            Step::Store(record) => Some(record),
            Step::Invoke(_, record) => if succeeded {
                Some(record)
            } else {
                None
            },
            Step::Allocate(_) => None,
        }
    }

    /// The record to persist after the step's invocation, if it has one, succeeded or failed.
    pub fn after_invocation(&self, succeeded: bool) -> (record: Option<UpgradeAdmin>)
        ensures
            record == self.record_after(succeeded),
    {
        match self {
            Step::Store(record) => Some(*record),
            Step::Invoke(_, record) => {
                if succeeded {
                    Some(*record)
                } else {
                    None
                }
            },
            Step::Allocate(_) => None,
        }
    }
}

/// The view of a handler's result.
pub open spec fn step_view(result: Result<Step, ProcessError>) -> Result<StepView, ProcessError> {
    match result {
        Ok(step) => Ok(step@),
        Err(e) => Err(e),
    }
}

/// The view of the result of the handler that initializes.
pub open spec fn allocation_view(result: Result<Allocation, ProcessError>) -> Result<
    AllocationView,
    ProcessError,
> {
    match result {
        Ok(allocation) => Ok(allocation@),
        Err(e) => Err(e),
    }
}

/// The view of a record that is persisted, or of the reason why none is.
pub open spec fn record_view(result: Result<UpgradeAdmin, ProcessError>) -> Result<
    UpgradeAdminView,
    ProcessError,
> {
    match result {
        Ok(record) => Ok(record@),
        Err(e) => Err(e),
    }
}

/// The key that recovery finds for `signature` over the hash of the message that authorizes an
/// operation with `payload` on `record` as it stands.
pub open spec fn recovered_signer(
    record: UpgradeAdminView,
    payload: Seq<u8>,
    signature: Seq<u8>,
    recovery_id: u8,
) -> Option<Seq<u8>> {
    recovered_key(
        keccak256(signed_message(record.contract, record.nonce, payload)),
        recovery_id,
        signature,
    )
}

/// Whether `record` lets an operation through, given the key that recovery found for the
/// operation's signature: the record must be initialized, the key must be the record's, and the
/// nonce must have room for one more operation. The first of these that fails is reported.
pub open spec fn authorization(record: UpgradeAdminView, recovered: Option<Seq<u8>>) -> Result<
    (),
    ProcessError,
> {
    if !record.is_initialized {
        Err(ProcessError::Upgrade(UpgradeError::NotInitialized))
    } else {
        match signature_verdict(recovered, record.public_key) {
            Err(e) => Err(ProcessError::Upgrade(e)),
            Ok(()) => if record.nonce == u64::MAX {
                Err(ProcessError::NonceOverflow)
            } else {
                Ok(())
            },
        }
    }
}

/// Checks that `record` lets through the operation with `payload` that `signature` authorizes.
pub fn authorize(record: &UpgradeAdmin, payload: &[u8], signature: &[u8; 64], recovery_id: u8) -> (allowed:
    Result<(), ProcessError>)
    ensures
        allowed == authorization(
            record@,
            recovered_signer(record@, payload@, signature@, recovery_id),
        ),
        allowed is Ok ==> record.nonce < u64::MAX,
{
    if !record.is_initialized {
        return Err(ProcessError::Upgrade(UpgradeError::NotInitialized));
    }
    let hash = message_hash(&record.contract, record.nonce, payload);
    match verify_ecdsa_signature(hash.as_slice(), signature.as_slice(), recovery_id, record.public_key) {
        Err(e) => Err(ProcessError::Upgrade(e)),
        Ok(()) => {
            if record.nonce == u64::MAX {
                Err(ProcessError::NonceOverflow)
            } else {
                Ok(())
            }
        },
    }
}

/// What initialization decides before storage is allocated, given what the storage at the
/// record's address spells and the address that was derived for the resource. In this order:
/// too few accounts; an address that is not the derived one, as `WrongAdmin`; storage that
/// spells an initialized record, as `AlreadyInUse`. Else the storage to allocate is named;
/// storage that spells no record holds no initialized one.
pub open spec fn init_admin_outcome(
    program_id: Seq<u8>,
    accounts: Seq<Address>,
    decoded: Result<UpgradeAdminView, CodecError>,
    derived: Option<(Seq<u8>, u8)>,
    public_key: Seq<u8>,
    contract: Seq<u8>,
) -> Result<AllocationView, ProcessError> {
    if accounts.len() < 4 {
        Err(ProcessError::NotEnoughAccountKeys)
    } else {
        match address_binding(derived, accounts[0]@, UpgradeError::WrongAdmin) {
            Err(e) => Err(e),
            Ok(bump) => if decoded is Ok && decoded->Ok_0.is_initialized {
                Err(ProcessError::Upgrade(UpgradeError::AlreadyInUse))
            } else {
                Ok(
                    AllocationView {
                        payer: accounts[1]@,
                        account: accounts[0]@,
                        space: MAX_ADMIN_SIZE as u64,
                        owner: program_id,
                        signer_seeds: signer_seeds(contract, bump),
                        public_key,
                        contract,
                    },
                )
            },
        }
    }
}

/// Handles `InitializeAdmin` up to the allocation of the record's storage. `data` is what the
/// storage at the record's address holds before anything is allocated.
pub fn process_init_admin(
    program_id: &Address,
    accounts: &[Address],
    data: &[u8],
    public_key: [u8; 64],
    upgrade_program: Address,
) -> (result: Result<Allocation, ProcessError>)
    ensures
        allocation_view(result) == init_admin_outcome(
            program_id@,
            accounts@,
            decode_record(data@),
            admin_address(program_id@, upgrade_program@),
            public_key@,
            upgrade_program@,
        ),
{
    if accounts.len() < 4 {
        return Err(ProcessError::NotEnoughAccountKeys);
    }
    let derived = find_admin_address(program_id, &upgrade_program);
    let bump = match check_admin_address(derived, &accounts[0], UpgradeError::WrongAdmin) {
        Err(e) => { return Err(e); },
        Ok(bump) => bump,
    };
    match UpgradeAdmin::deserialize(data) {
        Ok(record) => {
            if record.is_initialized {
                return Err(ProcessError::Upgrade(UpgradeError::AlreadyInUse));
            }
        },
        Err(_) => {},
    }
    Ok(
        Allocation {
            payer: accounts[1],
            account: accounts[0],
            space: MAX_ADMIN_SIZE as u64,
            owner: *program_id,
            signer_seeds: admin_signer_seeds(&upgrade_program, bump),
            public_key,
            contract: upgrade_program,
        },
    )
}

/// The record that initialization persists, given what the allocated storage holds: storage
/// that spells no record is reported, then a record that is already initialized, as
/// `AlreadyInUse`; else the record holds the key and the resource, at nonce 0.
pub open spec fn initialized_record(data: Seq<u8>, public_key: Seq<u8>, contract: Seq<u8>) -> Result<
    UpgradeAdminView,
    ProcessError,
> {
    match decode_record(data) {
        Err(e) => Err(ProcessError::Codec(e)),
        Ok(record) => if record.is_initialized {
            Err(ProcessError::Upgrade(UpgradeError::AlreadyInUse))
        } else {
            Ok(UpgradeAdminView { public_key, contract, nonce: 0, is_initialized: true })
        },
    }
}

impl Allocation {
    /// The invocation that allocates the storage, funded with `lamports`.
    pub fn invocation(&self, lamports: u64) -> (invocation: Invocation)
        ensures
            invocation@ == (InvocationView {
                instruction: create_account_instruction(
                    self.payer@,
                    self.account@,
                    lamports,
                    self.space,
                    self.owner@,
                ),
                accounts: seq![1usize, 0usize, 2usize],
                signer_seeds: self.signer_seeds@,
            }),
    {
        let instruction = create_account(
            &self.payer,
            &self.account,
            lamports,
            self.space,
            &self.owner,
        );
        let accounts: Vec<usize> = vec![1, 0, 2];
        assert(accounts@ =~= seq![1usize, 0usize, 2usize]);
        Invocation { instruction, accounts, signer_seeds: self.signer_seeds.duplicate() }
    }

    /// Finishes the initialization once the storage is allocated: `data` is what the storage
    /// holds then.
    pub fn complete(&self, data: &[u8]) -> (result: Result<UpgradeAdmin, ProcessError>)
        ensures
            record_view(result) == initialized_record(data@, self.public_key@, self.contract@),
    {
        match UpgradeAdmin::deserialize(data) {
            Err(e) => Err(ProcessError::Codec(e)),
            Ok(record) => {
                if record.is_initialized {
                    Err(ProcessError::Upgrade(UpgradeError::AlreadyInUse))
                } else {
                    Ok(
                        UpgradeAdmin {
                            public_key: self.public_key,
                            contract: self.contract,
                            nonce: 0,
                            is_initialized: true,
                        },
                    )
                }
            },
        }
    }
}

/// The address at position `index` among `accounts`; no bytes where there is none.
pub open spec fn key_at(accounts: Seq<Address>, index: int) -> Seq<u8> {
    if 0 <= index < accounts.len() {
        accounts[index]@
    } else {
        Seq::empty()
    }
}

/// The resource of the record that `decoded` holds; no bytes where it holds none.
pub open spec fn decoded_contract(decoded: Result<UpgradeAdminView, CodecError>) -> Seq<u8> {
    match decoded {
        Ok(record) => record.contract,
        Err(_) => Seq::empty(),
    }
}

/// The key that recovery finds for an operation on the record that `decoded` holds; nothing
/// where it holds none.
pub open spec fn decoded_signer(
    decoded: Result<UpgradeAdminView, CodecError>,
    payload: Seq<u8>,
    signature: Seq<u8>,
    recovery_id: u8,
) -> Option<Seq<u8>> {
    match decoded {
        Ok(record) => recovered_signer(record, payload, signature, recovery_id),
        Err(_) => None,
    }
}

/// What `ChangePublicKey` decides, given what the storage spells, the address that was derived
/// for the record's resource and the key that recovery found for the signature. In this order:
/// too few accounts; storage that spells no record; an address that is not the derived one, as
/// `WrongSeeds`; a record that does not let the operation through. Else the record is persisted
/// with the new key and the next nonce.
pub open spec fn change_public_key_outcome(
    accounts: Seq<Address>,
    decoded: Result<UpgradeAdminView, CodecError>,
    derived: Option<(Seq<u8>, u8)>,
    recovered: Option<Seq<u8>>,
    new_public_key: Seq<u8>,
) -> Result<StepView, ProcessError> {
    if accounts.len() < 1 {
        Err(ProcessError::NotEnoughAccountKeys)
    } else {
        match decoded {
            Err(e) => Err(ProcessError::Codec(e)),
            Ok(record) => match address_binding(derived, accounts[0]@, UpgradeError::WrongSeeds) {
                Err(e) => Err(e),
                Ok(_) => match authorization(record, recovered) {
                    Err(e) => Err(e),
                    Ok(()) => Ok(StepView::Store(record.rotate(new_public_key))),
                },
            },
        }
    }
}

/// Handles `ChangePublicKey`. `data` is what the record's storage holds.
pub fn process_change_public_key(
    program_id: &Address,
    accounts: &[Address],
    data: &[u8],
    new_public_key: [u8; 64],
    signature: [u8; 64],
    recovery_id: u8,
) -> (result: Result<Step, ProcessError>)
    ensures
        step_view(result) == change_public_key_outcome(
            accounts@,
            decode_record(data@),
            admin_address(program_id@, decoded_contract(decode_record(data@))),
            decoded_signer(decode_record(data@), new_public_key@, signature@, recovery_id),
            new_public_key@,
        ),
{
    if accounts.len() < 1 {
        return Err(ProcessError::NotEnoughAccountKeys);
    }
    let record = match UpgradeAdmin::deserialize(data) {
        Err(e) => { return Err(ProcessError::Codec(e)); },
        Ok(record) => record,
    };
    let derived = find_admin_address(program_id, &record.contract);
    match check_admin_address(derived, &accounts[0], UpgradeError::WrongSeeds) {
        Err(e) => { return Err(e); },
        Ok(_) => {},
    }
    match authorize(&record, new_public_key.as_slice(), &signature, recovery_id) {
        Err(e) => { return Err(e); },
        Ok(()) => {},
    }
    Ok(Step::Store(record.rotate(new_public_key)))
}

/// What `ChangeAuthority` decides, given what the storage spells, the address that was derived
/// for the record's resource, the key that recovery found for the signature and the address
/// that was derived for the resource's program data. In this order: too few accounts; storage
/// that spells no record; an address that is not the derived one, as `WrongSeeds`; a record
/// that does not let the operation through; no address for the program data. Else the loader is
/// to hand the resource from the record to the new authority, signed by the record's address,
/// and then the record is persisted with the next nonce.
pub open spec fn change_authority_outcome(
    accounts: Seq<Address>,
    decoded: Result<UpgradeAdminView, CodecError>,
    derived: Option<(Seq<u8>, u8)>,
    recovered: Option<Seq<u8>>,
    program_data: Option<(Seq<u8>, u8)>,
) -> Result<StepView, ProcessError> {
    if accounts.len() < 3 {
        Err(ProcessError::NotEnoughAccountKeys)
    } else {
        match decoded {
            Err(e) => Err(ProcessError::Codec(e)),
            Ok(record) => match address_binding(derived, accounts[0]@, UpgradeError::WrongSeeds) {
                Err(e) => Err(e),
                Ok(bump) => match authorization(record, recovered) {
                    Err(e) => Err(e),
                    Ok(()) => match program_data {
                        None => Err(ProcessError::NoProgramAddress),
                        Some((data_address, _)) => Ok(
                            StepView::Invoke(
                                InvocationView {
                                    instruction: set_upgrade_authority_instruction(
                                        data_address,
                                        accounts[0]@,
                                        accounts[2]@,
                                    ),
                                    accounts: seq![1usize, 0usize, 2usize],
                                    signer_seeds: signer_seeds(record.contract, bump),
                                },
                                record.advance(),
                            ),
                        ),
                    },
                },
            },
        }
    }
}

/// Handles `ChangeAuthority`. `data` is what the record's storage holds.
pub fn process_change_authority(
    program_id: &Address,
    accounts: &[Address],
    data: &[u8],
    signature: [u8; 64],
    recovery_id: u8,
) -> (result: Result<Step, ProcessError>)
    ensures
        step_view(result) == change_authority_outcome(
            accounts@,
            decode_record(data@),
            admin_address(program_id@, decoded_contract(decode_record(data@))),
            decoded_signer(decode_record(data@), key_at(accounts@, 2), signature@, recovery_id),
            program_data_address(decoded_contract(decode_record(data@))),
        ),
{
    if accounts.len() < 3 {
        return Err(ProcessError::NotEnoughAccountKeys);
    }
    let record = match UpgradeAdmin::deserialize(data) {
        Err(e) => { return Err(ProcessError::Codec(e)); },
        Ok(record) => record,
    };
    let derived = find_admin_address(program_id, &record.contract);
    let bump = match check_admin_address(derived, &accounts[0], UpgradeError::WrongSeeds) {
        Err(e) => { return Err(e); },
        Ok(bump) => bump,
    };
    let authority = accounts[2];
    match authorize(&record, authority.bytes.as_slice(), &signature, recovery_id) {
        Err(e) => { return Err(e); },
        Ok(()) => {},
    }
    if find_program_data_address(&record.contract).is_none() {
        return Err(ProcessError::NoProgramAddress);
    }
    let instruction = set_upgrade_authority(&record.contract, &accounts[0], &authority);
    let order: Vec<usize> = vec![1, 0, 2];
    assert(order@ =~= seq![1usize, 0usize, 2usize]);
    let invocation = Invocation {
        instruction,
        accounts: order,
        signer_seeds: admin_signer_seeds(&record.contract, bump),
    };
    Ok(Step::Invoke(invocation, record.advance()))
}

/// What `Upgrade` decides, given the address that was derived for the resource that the
/// operation names, what the storage spells, the key that recovery found for the signature and
/// the address that was derived for the resource's program data. In this order: too few
/// accounts; an address that is not the derived one, as `WrongSeeds`; storage that spells no
/// record; a record that does not let the operation through; no address for the program data.
/// Else the loader is to deploy the buffer to the resource, signed by the record's address, and
/// then the record is persisted with the next nonce.
pub open spec fn upgrade_outcome(
    accounts: Seq<Address>,
    derived: Option<(Seq<u8>, u8)>,
    decoded: Result<UpgradeAdminView, CodecError>,
    recovered: Option<Seq<u8>>,
    program_data: Option<(Seq<u8>, u8)>,
) -> Result<StepView, ProcessError> {
    if accounts.len() < 7 {
        Err(ProcessError::NotEnoughAccountKeys)
    } else {
        match address_binding(derived, accounts[0]@, UpgradeError::WrongSeeds) {
            Err(e) => Err(e),
            Ok(bump) => match decoded {
                Err(e) => Err(ProcessError::Codec(e)),
                Ok(record) => match authorization(record, recovered) {
                    Err(e) => Err(e),
                    Ok(()) => match program_data {
                        None => Err(ProcessError::NoProgramAddress),
                        Some((data_address, _)) => Ok(
                            StepView::Invoke(
                                InvocationView {
                                    instruction: upgrade_instruction(
                                        data_address,
                                        accounts[2]@,
                                        accounts[3]@,
                                        accounts[0]@,
                                        accounts[4]@,
                                    ),
                                    accounts: seq![
                                        1usize,
                                        2usize,
                                        3usize,
                                        4usize,
                                        5usize,
                                        6usize,
                                        0usize,
                                    ],
                                    signer_seeds: signer_seeds(accounts[2]@, bump),
                                },
                                record.advance(),
                            ),
                        ),
                    },
                },
            },
        }
    }
}

/// Handles `Upgrade`. `data` is what the record's storage holds.
pub fn process_upgrade(
    program_id: &Address,
    accounts: &[Address],
    data: &[u8],
    signature: [u8; 64],
    recovery_id: u8,
) -> (result: Result<Step, ProcessError>)
    ensures
        step_view(result) == upgrade_outcome(
            accounts@,
            admin_address(program_id@, key_at(accounts@, 2)),
            decode_record(data@),
            decoded_signer(decode_record(data@), key_at(accounts@, 3), signature@, recovery_id),
            program_data_address(key_at(accounts@, 2)),
        ),
{
    if accounts.len() < 7 {
        return Err(ProcessError::NotEnoughAccountKeys);
    }
    let program = accounts[2];
    let buffer = accounts[3];
    let derived = find_admin_address(program_id, &program);
    let bump = match check_admin_address(derived, &accounts[0], UpgradeError::WrongSeeds) {
        Err(e) => { return Err(e); },
        Ok(bump) => bump,
    };
    let record = match UpgradeAdmin::deserialize(data) {
        Err(e) => { return Err(ProcessError::Codec(e)); },
        Ok(record) => record,
    };
    match authorize(&record, buffer.bytes.as_slice(), &signature, recovery_id) {
        Err(e) => { return Err(e); },
        Ok(()) => {},
    }
    if find_program_data_address(&program).is_none() {
        return Err(ProcessError::NoProgramAddress);
    }
    let instruction = upgrade(&program, &buffer, &accounts[0], &accounts[4]);
    let order: Vec<usize> = vec![1, 2, 3, 4, 5, 6, 0];
    assert(order@ =~= seq![1usize, 2usize, 3usize, 4usize, 5usize, 6usize, 0usize]);
    let invocation = Invocation {
        instruction,
        accounts: order,
        signer_seeds: admin_signer_seeds(&program, bump),
    };
    Ok(Step::Invoke(invocation, record.advance()))
}

/// What the dispatcher decides for the operation that `input` spells: bytes that spell none
/// are reported before any handler looks at the accounts or the storage; else the operation's
/// handler decides, on what the storage spells and on the results that the derivations and the
/// recovery named here give.
pub open spec fn instruction_outcome(
    program_id: Seq<u8>,
    accounts: Seq<Address>,
    data: Seq<u8>,
    input: Seq<u8>,
) -> Result<StepView, ProcessError> {
    match decode_instruction(input) {
        Err(e) => Err(ProcessError::Codec(e)),
        Ok(UpgradeInstructionView::InitializeAdmin { public_key, contract }) => {
            match init_admin_outcome(
                program_id,
                accounts,
                decode_record(data),
                admin_address(program_id, contract),
                public_key,
                contract,
            ) {
                Err(e) => Err(e),
                Ok(allocation) => Ok(StepView::Allocate(allocation)),
            }
        },
        Ok(
            UpgradeInstructionView::ChangePublicKey { new_public_key, signature, recovery_id },
        ) => change_public_key_outcome(
            accounts,
            decode_record(data),
            admin_address(program_id, decoded_contract(decode_record(data))),
            decoded_signer(decode_record(data), new_public_key, signature, recovery_id),
            new_public_key,
        ),
        Ok(UpgradeInstructionView::ChangeAuthority { signature, recovery_id }) => {
            change_authority_outcome(
                accounts,
                decode_record(data),
                admin_address(program_id, decoded_contract(decode_record(data))),
                decoded_signer(decode_record(data), key_at(accounts, 2), signature, recovery_id),
                program_data_address(decoded_contract(decode_record(data))),
            )
        },
        Ok(UpgradeInstructionView::Upgrade { signature, recovery_id }) => upgrade_outcome(
            accounts,
            admin_address(program_id, key_at(accounts, 2)),
            decode_record(data),
            decoded_signer(decode_record(data), key_at(accounts, 3), signature, recovery_id),
            program_data_address(key_at(accounts, 2)),
        ),
    }
}

/// Decodes the operation that `input` spells and hands it to its handler. `accounts` are the
/// addresses that the operation names, in order; `data` is what the record's storage holds.
pub fn process_instruction(program_id: &Address, accounts: &[Address], data: &[u8], input: &[u8]) -> (result:
    Result<Step, ProcessError>)
    ensures
        step_view(result) == instruction_outcome(program_id@, accounts@, data@, input@),
{
    match UpgradeInstruction::try_from_slice(input) {
        Err(e) => Err(ProcessError::Codec(e)),
        Ok(UpgradeInstruction::InitializeAdmin(args)) => {
            match process_init_admin(program_id, accounts, data, args.public_key, args.contract) {
                Err(e) => Err(e),
                Ok(allocation) => Ok(Step::Allocate(allocation)),
            }
        },
        Ok(UpgradeInstruction::ChangePublicKey(args)) => process_change_public_key(
            program_id,
            accounts,
            data,
            args.new_public_key,
            args.signature,
            args.recovery_id,
        ),
        Ok(UpgradeInstruction::ChangeAuthority(args)) => process_change_authority(
            program_id,
            accounts,
            data,
            args.signature,
            args.recovery_id,
        ),
        Ok(UpgradeInstruction::Upgrade(args)) => process_upgrade(
            program_id,
            accounts,
            data,
            args.signature,
            args.recovery_id,
        ),
    }
}

} // verus!
