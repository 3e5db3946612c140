//! The operations on an authority record and their layout on the wire.

use crate::address::admin_address;
use crate::address::find_admin_address;
use crate::address::find_program_data_address;
use crate::address::program_data_address;
use crate::address::Address;
use crate::address::BPF_LOADER_UPGRADEABLE_ID;
use crate::address::CLOCK_SYSVAR_ID;
use crate::address::RENT_SYSVAR_ID;
use crate::address::SYSTEM_PROGRAM_ID;
use crate::bytes::append_bytes;
use crate::bytes::read_array;
use crate::error::CodecError;
use crate::host::readonly;
use crate::host::writable;
use crate::host::AccountMeta;
use crate::host::Instruction;
use crate::host::InstructionView;
use vstd::prelude::*;

verus! {

/// What `InitializeAdmin` carries.
#[derive(Clone, Copy, Debug, PartialEq, Eq)]
pub struct InitializeAdminArgs {
    /// The secp256k1 public key that is to govern the resource, 64 bytes.
    pub public_key: [u8; 64],
    /// The resource to govern.
    pub contract: Address,
}

/// What `ChangePublicKey` carries.
#[derive(Clone, Copy, Debug, PartialEq, Eq)]
pub struct ChangePublicKeyArgs {
    /// The key that is to replace the record's key.
    pub new_public_key: [u8; 64],
    /// The signature of the record's key over the message that names the new key.
    pub signature: [u8; 64],
    /// The recovery id of the signature.
    pub recovery_id: u8,
}

/// What `ChangeAuthority` carries.
#[derive(Clone, Copy, Debug, PartialEq, Eq)]
pub struct ChangeAuthorityArgs {
    /// The signature of the record's key over the message that names the new authority.
    pub signature: [u8; 64],
    /// The recovery id of the signature.
    pub recovery_id: u8,
}

/// What `Upgrade` carries.
#[derive(Clone, Copy, Debug, PartialEq, Eq)]
pub struct UpgradeArgs {
    /// The signature of the record's key over the message that names the buffer to deploy.
    pub signature: [u8; 64],
    /// The recovery id of the signature.
    pub recovery_id: u8,
}

/// The operations on an authority record. Each lists the accounts that it expects, in order.
#[derive(Clone, Copy, Debug, PartialEq, Eq)]
pub enum UpgradeInstruction {
    /// Creates the authority record of a resource.
    ///
    ///   0. `[writable]` The record to initialize
    ///   1. `[writable,signer]` The fee payer
    ///   2. `[]` The system program
    ///   3. `[]` The rent sysvar
    InitializeAdmin(InitializeAdminArgs),
    /// Replaces the record's key. The record's key signs the message that names the new key.
    ///
    ///   0. `[writable]` The record
    ChangePublicKey(ChangePublicKeyArgs),
    /// Hands the resource to a new authority. The record's key signs the message that names it.
    ///
    ///   0. `[writable]` The record
    ///   1. `[writable]` The program data of the resource
    ///   2. `[]` The new authority
    ///   3. `[]` The upgradable loader
    ChangeAuthority(ChangeAuthorityArgs),
    /// Deploys a buffer to the resource. The record's key signs the message that names the buffer.
    ///
    ///   0. `[writable]` The record
    ///   1. `[writable]` The program data of the resource
    ///   2. `[writable]` The resource
    ///   3. `[writable]` The buffer that holds what is to be deployed
    ///   4. `[writable]` The spill account
    ///   5. `[]` The rent sysvar
    ///   6. `[]` The clock sysvar
    ///   7. `[]` The upgradable loader
    Upgrade(UpgradeArgs),
}

/// What an operation holds, as plain values.
pub enum UpgradeInstructionView {
    InitializeAdmin { public_key: Seq<u8>, contract: Seq<u8> },
    ChangePublicKey { new_public_key: Seq<u8>, signature: Seq<u8>, recovery_id: u8 },
    ChangeAuthority { signature: Seq<u8>, recovery_id: u8 },
    Upgrade { signature: Seq<u8>, recovery_id: u8 },
}

impl View for UpgradeInstruction {
    type V = UpgradeInstructionView;

    open spec fn view(&self) -> UpgradeInstructionView {
        match *self {
            UpgradeInstruction::InitializeAdmin(args) => UpgradeInstructionView::InitializeAdmin {
                public_key: args.public_key@,
                contract: args.contract@,
            },
            UpgradeInstruction::ChangePublicKey(args) => UpgradeInstructionView::ChangePublicKey {
                new_public_key: args.new_public_key@,
                signature: args.signature@,
                recovery_id: args.recovery_id,
            },
            UpgradeInstruction::ChangeAuthority(args) => UpgradeInstructionView::ChangeAuthority {
                signature: args.signature@,
                recovery_id: args.recovery_id,
            },
            UpgradeInstruction::Upgrade(args) => UpgradeInstructionView::Upgrade {
                signature: args.signature@,
                recovery_id: args.recovery_id,
            },
        }
    }
}

impl UpgradeInstructionView {
    /// Keys and signatures have 64 bytes and the resource 32.
    pub open spec fn wf(self) -> bool {
        match self {
            UpgradeInstructionView::InitializeAdmin { public_key, contract } => public_key.len()
                == 64 && contract.len() == 32,
            UpgradeInstructionView::ChangePublicKey { new_public_key, signature, .. } =>
                new_public_key.len() == 64 && signature.len() == 64,
            UpgradeInstructionView::ChangeAuthority { signature, .. } => signature.len() == 64,
            UpgradeInstructionView::Upgrade { signature, .. } => signature.len() == 64,
        }
    }

    /// The bytes of the operation on the wire: one byte that tells the operation (0 to 3, in the
    /// order of declaration), then its fields in their order, nothing between them.
    pub open spec fn encode(self) -> Seq<u8> {
        match self {
            UpgradeInstructionView::InitializeAdmin { public_key, contract } => seq![0u8]
                + public_key + contract,
            UpgradeInstructionView::ChangePublicKey { new_public_key, signature, recovery_id } =>
                seq![1u8] + new_public_key + signature + seq![recovery_id],
            UpgradeInstructionView::ChangeAuthority { signature, recovery_id } => seq![2u8]
                + signature + seq![recovery_id],
            UpgradeInstructionView::Upgrade { signature, recovery_id } => seq![3u8] + signature
                + seq![recovery_id],
        }
    }
}

/// The number of bytes that follow the tag `tag` on the wire.
pub open spec fn payload_len(tag: u8) -> nat {
    if tag == 0 {
        96
    } else if tag == 1 {
        129
    } else {
        65
    }
}

/// The operation that `input` spells, or why it spells none: `UnexpectedLength` where `input` is
/// empty or ends before the operation does, `UnexpectedVariant` where the tag is above 3,
/// `NotAllBytesRead` where bytes follow the operation.
pub open spec fn decode_instruction(input: Seq<u8>) -> Result<UpgradeInstructionView, CodecError> {
    if input.len() == 0 {
        Err(CodecError::UnexpectedLength)
    } else if input[0] > 3 {
        Err(CodecError::UnexpectedVariant(input[0]))
    } else if input.len() < 1 + payload_len(input[0]) {
        Err(CodecError::UnexpectedLength)
    } else if input.len() > 1 + payload_len(input[0]) {
        Err(CodecError::NotAllBytesRead)
    } else if input[0] == 0 {
        Ok(
            UpgradeInstructionView::InitializeAdmin {
                public_key: input.subrange(1, 65),
                contract: input.subrange(65, 97),
            },
        )
    } else if input[0] == 1 {
        Ok(
            UpgradeInstructionView::ChangePublicKey {
                new_public_key: input.subrange(1, 65),
                signature: input.subrange(65, 129),
                recovery_id: input[129],
            },
        )
    } else if input[0] == 2 {
        Ok(
            UpgradeInstructionView::ChangeAuthority {
                signature: input.subrange(1, 65),
                recovery_id: input[65],
            },
        )
    } else {
        Ok(UpgradeInstructionView::Upgrade { signature: input.subrange(1, 65), recovery_id: input[65] })
    }
}

/// The view of a decoding's result.
pub open spec fn decoded_instruction_view(decoded: Result<UpgradeInstruction, CodecError>) -> Result<
    UpgradeInstructionView,
    CodecError,
> {
    match decoded {
        Ok(instruction) => Ok(instruction@),
        Err(e) => Err(e),
    }
}

impl UpgradeInstruction {
    /// Reads the operation that `input` spells; all of `input` must belong to it.
    pub fn try_from_slice(input: &[u8]) -> (decoded: Result<UpgradeInstruction, CodecError>)
        ensures
            decoded_instruction_view(decoded) == decode_instruction(input@),
    {
        if input.len() == 0 {
            return Err(CodecError::UnexpectedLength);
        }
        let tag = input[0];
        if tag > 3 {
            return Err(CodecError::UnexpectedVariant(tag));
        }
        let need: usize = if tag == 0 {
            96
        } else if tag == 1 {
            129
        } else {
            65
        };
        if input.len() - 1 < need {
            return Err(CodecError::UnexpectedLength);
        }
        if input.len() - 1 > need {
            return Err(CodecError::NotAllBytesRead);
        }
        if tag == 0 {
            let public_key: [u8; 64] = read_array(input, 1);
            let contract: [u8; 32] = read_array(input, 65);
            Ok(
                UpgradeInstruction::InitializeAdmin(
                    InitializeAdminArgs { public_key, contract: Address::new_from_array(contract) },
                ),
            )
        } else if tag == 1 {
            let new_public_key: [u8; 64] = read_array(input, 1);
            let signature: [u8; 64] = read_array(input, 65);
            Ok(
                UpgradeInstruction::ChangePublicKey(
                    ChangePublicKeyArgs { new_public_key, signature, recovery_id: input[129] },
                ),
            )
        } else if tag == 2 {
            let signature: [u8; 64] = read_array(input, 1);
            Ok(
                UpgradeInstruction::ChangeAuthority(
                    ChangeAuthorityArgs { signature, recovery_id: input[65] },
                ),
            )
        } else {
            let signature: [u8; 64] = read_array(input, 1);
            Ok(UpgradeInstruction::Upgrade(UpgradeArgs { signature, recovery_id: input[65] }))
        }
    }

    /// The bytes of the operation on the wire.
    pub fn try_to_vec(&self) -> (bytes: Vec<u8>)
        ensures
            bytes@ == self@.encode(),
    {
        let mut bytes: Vec<u8> = Vec::new();
        match self {
            UpgradeInstruction::InitializeAdmin(args) => {
                bytes.push(0);
                append_bytes(&mut bytes, args.public_key.as_slice());
                append_bytes(&mut bytes, args.contract.bytes.as_slice());
            },
            UpgradeInstruction::ChangePublicKey(args) => {
                bytes.push(1);
                append_bytes(&mut bytes, args.new_public_key.as_slice());
                append_bytes(&mut bytes, args.signature.as_slice());
                bytes.push(args.recovery_id);
            },
            UpgradeInstruction::ChangeAuthority(args) => {
                bytes.push(2);
                append_bytes(&mut bytes, args.signature.as_slice());
                bytes.push(args.recovery_id);
            },
            UpgradeInstruction::Upgrade(args) => {
                bytes.push(3);
                append_bytes(&mut bytes, args.signature.as_slice());
                bytes.push(args.recovery_id);
            },
        }
        assert(bytes@ =~= self@.encode());
        bytes
    }
}

/// An operation that was written is read back as it was.
pub proof fn lemma_decode_of_encoded_instruction(instruction: UpgradeInstructionView)
    requires
        instruction.wf(),
    ensures
        decode_instruction(instruction.encode()) == Ok::<UpgradeInstructionView, CodecError>(
            instruction,
        ),
{
    let input = instruction.encode();
    match instruction {
        UpgradeInstructionView::InitializeAdmin { public_key, contract } => {
            assert(input.subrange(1, 65) =~= public_key);
            assert(input.subrange(65, 97) =~= contract);
        },
        UpgradeInstructionView::ChangePublicKey { new_public_key, signature, recovery_id } => {
            assert(input.subrange(1, 65) =~= new_public_key);
            assert(input.subrange(65, 129) =~= signature);
        },
        UpgradeInstructionView::ChangeAuthority { signature, recovery_id } => {
            assert(input.subrange(1, 65) =~= signature);
        },
        UpgradeInstructionView::Upgrade { signature, recovery_id } => {
            assert(input.subrange(1, 65) =~= signature);
        },
    }
}

/// Bytes from which an operation was read are the bytes of that operation.
pub proof fn lemma_encode_of_decoded_instruction(input: Seq<u8>)
    requires
        decode_instruction(input) is Ok,
    ensures
        decode_instruction(input)->Ok_0.wf(),
        decode_instruction(input)->Ok_0.encode() == input,
{
    assert(decode_instruction(input)->Ok_0.encode() =~= input);
}

/// The view of an instruction that was built, where one was.
pub open spec fn built_view(built: Option<Instruction>) -> Option<InstructionView> {
    match built {
        Some(instruction) => Some(instruction@),
        None => None,
    }
}

/// The instruction that asks `program_id` to create the record at `admin` for `contract`: the
/// record may change, the fee payer signs and may change, the system program and the rent
/// sysvar are read.
pub open spec fn initialize_admin_instruction(
    program_id: Seq<u8>,
    admin: Seq<u8>,
    contract: Seq<u8>,
    fee_payer: Seq<u8>,
    public_key: Seq<u8>,
) -> InstructionView {
    InstructionView {
        program_id,
        accounts: seq![
            writable(admin, false),
            writable(fee_payer, true),
            readonly(SYSTEM_PROGRAM_ID@, false),
            readonly(RENT_SYSVAR_ID@, false),
        ],
        data: (UpgradeInstructionView::InitializeAdmin { public_key, contract }).encode(),
    }
}

/// The instruction that asks `program_id` to replace the key of the record at `admin`.
pub open spec fn change_public_key_instruction(
    program_id: Seq<u8>,
    admin: Seq<u8>,
    new_public_key: Seq<u8>,
    signature: Seq<u8>,
    recovery_id: u8,
) -> InstructionView {
    InstructionView {
        program_id,
        accounts: seq![writable(admin, false)],
        data: (UpgradeInstructionView::ChangePublicKey {
            new_public_key,
            signature,
            recovery_id,
        }).encode(),
    }
}

/// The instruction that asks `program_id` to hand the resource of the record at `admin` to
/// `new_authority`: the record, the resource's program data, the new authority and the
/// upgradable loader, in this order.
pub open spec fn change_authority_instruction(
    program_id: Seq<u8>,
    admin: Seq<u8>,
    program_data: Seq<u8>,
    new_authority: Seq<u8>,
    signature: Seq<u8>,
    recovery_id: u8,
) -> InstructionView {
    InstructionView {
        program_id,
        accounts: seq![
            writable(admin, false),
            writable(program_data, false),
            writable(new_authority, false),
            writable(BPF_LOADER_UPGRADEABLE_ID@, false),
        ],
        data: (UpgradeInstructionView::ChangeAuthority { signature, recovery_id }).encode(),
    }
}

/// The instruction that asks `program_id` to deploy `buffer` to `contract`: the record, the
/// resource's program data, the resource, the buffer, the spill account, the rent sysvar, the
/// clock sysvar and the upgradable loader, in this order.
pub open spec fn upgrade_request_instruction(
    program_id: Seq<u8>,
    admin: Seq<u8>,
    program_data: Seq<u8>,
    contract: Seq<u8>,
    buffer: Seq<u8>,
    spill: Seq<u8>,
    signature: Seq<u8>,
    recovery_id: u8,
) -> InstructionView {
    InstructionView {
        program_id,
        accounts: seq![
            writable(admin, false),
            writable(program_data, false),
            writable(contract, false),
            writable(buffer, false),
            writable(spill, false),
            writable(RENT_SYSVAR_ID@, false),
            writable(CLOCK_SYSVAR_ID@, false),
            writable(BPF_LOADER_UPGRADEABLE_ID@, false),
        ],
        data: (UpgradeInstructionView::Upgrade { signature, recovery_id }).encode(),
    }
}

/// Builds the instruction that creates the authority record of `contract`; none where no
/// address can be derived for the record.
pub fn initialize_admin(
    program_id: Address,
    contract: Address,
    fee_payer: Address,
    public_key: [u8; 64],
) -> (built: Option<Instruction>)
    ensures
        built_view(built) == match admin_address(program_id@, contract@) {
            None => None,
            Some((admin, _)) => Some(
                initialize_admin_instruction(
                    program_id@,
                    admin,
                    contract@,
                    fee_payer@,
                    public_key@,
                ),
            ),
        },
{
    let admin = match find_admin_address(&program_id, &contract) {
        None => { return None; },
        Some((admin, _)) => admin,
    };
    let data = UpgradeInstruction::InitializeAdmin(
        InitializeAdminArgs { public_key, contract },
    ).try_to_vec();
    let mut accounts: Vec<AccountMeta> = Vec::new();
    accounts.push(AccountMeta::new(admin, false));
    accounts.push(AccountMeta::new(fee_payer, true));
    accounts.push(AccountMeta::new_readonly(Address::new_from_array(SYSTEM_PROGRAM_ID), false));
    accounts.push(AccountMeta::new_readonly(Address::new_from_array(RENT_SYSVAR_ID), false));
    let instruction = Instruction { program_id, accounts, data };
    assert(instruction@.accounts =~= initialize_admin_instruction(
        program_id@,
        admin@,
        contract@,
        fee_payer@,
        public_key@,
    ).accounts);
    Some(instruction)
}

/// Builds the instruction that replaces the key of the authority record of `contract`; none
/// where no address can be derived for the record.
pub fn change_public_key(
    program_id: Address,
    contract: Address,
    new_public_key: [u8; 64],
    signature: [u8; 64],
    recovery_id: u8,
) -> (built: Option<Instruction>)
    ensures
        built_view(built) == match admin_address(program_id@, contract@) {
            None => None,
            Some((admin, _)) => Some(
                change_public_key_instruction(
                    program_id@,
                    admin,
                    new_public_key@,
                    signature@,
                    recovery_id,
                ),
            ),
        },
{
    let admin = match find_admin_address(&program_id, &contract) {
        None => { return None; },
        Some((admin, _)) => admin,
    };
    let data = UpgradeInstruction::ChangePublicKey(
        ChangePublicKeyArgs { new_public_key, signature, recovery_id },
    ).try_to_vec();
    let mut accounts: Vec<AccountMeta> = Vec::new();
    accounts.push(AccountMeta::new(admin, false));
    let instruction = Instruction { program_id, accounts, data };
    assert(instruction@.accounts =~= seq![writable(admin@, false)]);
    Some(instruction)
}

/// Builds the instruction that hands `contract` to `new_authority`; none where no address can
/// be derived for the record or for the program data of `contract`.
pub fn change_authority(
    program_id: Address,
    contract: Address,
    new_authority: Address,
    signature: [u8; 64],
    recovery_id: u8,
) -> (built: Option<Instruction>)
    ensures
        built_view(built) == match (
            admin_address(program_id@, contract@),
            program_data_address(contract@),
        ) {
            (Some((admin, _)), Some((program_data, _))) => Some(
                change_authority_instruction(
                    program_id@,
                    admin,
                    program_data,
                    new_authority@,
                    signature@,
                    recovery_id,
                ),
            ),
            _ => None,
        },
{
    let admin = match find_admin_address(&program_id, &contract) {
        None => { return None; },
        Some((admin, _)) => admin,
    };
    let program_data = match find_program_data_address(&contract) {
        None => { return None; },
        Some((program_data, _)) => program_data,
    };
    let data = UpgradeInstruction::ChangeAuthority(
        ChangeAuthorityArgs { signature, recovery_id },
    ).try_to_vec();
    let mut accounts: Vec<AccountMeta> = Vec::new();
    accounts.push(AccountMeta::new(admin, false));
    accounts.push(AccountMeta::new(program_data, false));
    accounts.push(AccountMeta::new(new_authority, false));
    accounts.push(AccountMeta::new(Address::new_from_array(BPF_LOADER_UPGRADEABLE_ID), false));
    let instruction = Instruction { program_id, accounts, data };
    assert(instruction@.accounts =~= change_authority_instruction(
        program_id@,
        admin@,
        program_data@,
        new_authority@,
        signature@,
        recovery_id,
    ).accounts);
    Some(instruction)
}

/// Builds the instruction that deploys `buffer` to `contract`; none where no address can be
/// derived for the record or for the program data of `contract`.
pub fn upgrade(
    program_id: Address,
    contract: Address,
    buffer: Address,
    spill: Address,
    signature: [u8; 64],
    recovery_id: u8,
) -> (built: Option<Instruction>)
    ensures
        built_view(built) == match (
            admin_address(program_id@, contract@),
            program_data_address(contract@),
        ) {
            (Some((admin, _)), Some((program_data, _))) => Some(
                upgrade_request_instruction(
                    program_id@,
                    admin,
                    program_data,
                    contract@,
                    buffer@,
                    spill@,
                    signature@,
                    recovery_id,
                ),
            ),
            _ => None,
        },
{
    let admin = match find_admin_address(&program_id, &contract) {
        None => { return None; },
        Some((admin, _)) => admin,
    };
    let program_data = match find_program_data_address(&contract) {
        None => { return None; },
        Some((program_data, _)) => program_data,
    };
    let data = UpgradeInstruction::Upgrade(UpgradeArgs { signature, recovery_id }).try_to_vec();
    let mut accounts: Vec<AccountMeta> = Vec::new();
    accounts.push(AccountMeta::new(admin, false));
    accounts.push(AccountMeta::new(program_data, false));
    accounts.push(AccountMeta::new(contract, false));
    accounts.push(AccountMeta::new(buffer, false));
    accounts.push(AccountMeta::new(spill, false));
    accounts.push(AccountMeta::new(Address::new_from_array(RENT_SYSVAR_ID), false));
    accounts.push(AccountMeta::new(Address::new_from_array(CLOCK_SYSVAR_ID), false));
    accounts.push(AccountMeta::new(Address::new_from_array(BPF_LOADER_UPGRADEABLE_ID), false));
    let instruction = Instruction { program_id, accounts, data };
    assert(instruction@.accounts =~= upgrade_request_instruction(
        program_id@,
        admin@,
        program_data@,
        contract@,
        buffer@,
        spill@,
        signature@,
        recovery_id,
    ).accounts);
    Some(instruction)
}

} // verus!
