//! What is handed to the host to run: instructions, the accounts they name, and the invocations
//! that an authority record signs.

use crate::address::program_data_address;
use crate::address::Address;
use crate::address::Seeds;
use crate::address::BPF_LOADER_UPGRADEABLE_ID;
use crate::address::CLOCK_SYSVAR_ID;
use crate::address::RENT_SYSVAR_ID;
use crate::address::SYSTEM_PROGRAM_ID;
use crate::bytes::le_bytes;
use solana_program::pubkey::Pubkey;
use vstd::prelude::*;

verus! {

/// An account that an instruction names, and how the instruction uses it.
#[derive(Clone, Copy, Debug, PartialEq, Eq)]
pub struct AccountMeta {
    /// The address of the account.
    pub pubkey: Address,
    /// Whether the account signs the instruction.
    pub is_signer: bool,
    /// Whether the instruction may change the account.
    pub is_writable: bool,
}

/// What an account reference holds, as plain values.
pub struct AccountMetaView {
    pub pubkey: Seq<u8>,
    pub is_signer: bool,
    pub is_writable: bool,
}

impl View for AccountMeta {
    type V = AccountMetaView;

    open spec fn view(&self) -> AccountMetaView {
        AccountMetaView {
            pubkey: self.pubkey@,
            is_signer: self.is_signer,
            is_writable: self.is_writable,
        }
    }
}

/// A reference to an account that the instruction may change.
pub open spec fn writable(pubkey: Seq<u8>, is_signer: bool) -> AccountMetaView {
    AccountMetaView { pubkey, is_signer, is_writable: true }
}

/// A reference to an account that the instruction only reads.
pub open spec fn readonly(pubkey: Seq<u8>, is_signer: bool) -> AccountMetaView {
    AccountMetaView { pubkey, is_signer, is_writable: false }
}

impl AccountMeta {
    /// A reference to an account that the instruction may change.
    pub fn new(pubkey: Address, is_signer: bool) -> (meta: AccountMeta)
        ensures
            meta@ == writable(pubkey@, is_signer),
    {
        AccountMeta { pubkey, is_signer, is_writable: true }
    }

    /// A reference to the account with the address `bytes`.
    pub fn from_parts(bytes: [u8; 32], is_signer: bool, is_writable: bool) -> (meta: AccountMeta)
        ensures
            meta@ == (AccountMetaView { pubkey: bytes@, is_signer, is_writable }),
    {
        AccountMeta { pubkey: Address::new_from_array(bytes), is_signer, is_writable }
    }

    /// A reference to an account that the instruction only reads.
    pub fn new_readonly(pubkey: Address, is_signer: bool) -> (meta: AccountMeta)
        ensures
            meta@ == readonly(pubkey@, is_signer),
    {
        AccountMeta { pubkey, is_signer, is_writable: false }
    }
}

/// An instruction for a program: the program, the accounts it is to work on, and its data.
#[derive(Clone, Debug, PartialEq, Eq)]
pub struct Instruction {
    /// The program that runs the instruction.
    pub program_id: Address,
    /// The accounts that the instruction names, in the order in which the program expects them.
    pub accounts: Vec<AccountMeta>,
    /// What the program is to do.
    pub data: Vec<u8>,
}

/// What an instruction holds, as plain values.
pub struct InstructionView {
    pub program_id: Seq<u8>,
    pub accounts: Seq<AccountMetaView>,
    pub data: Seq<u8>,
}

impl View for Instruction {
    type V = InstructionView;

    open spec fn view(&self) -> InstructionView {
        InstructionView {
            program_id: self.program_id@,
            accounts: Seq::new(self.accounts@.len(), |i: int| self.accounts@[i]@),
            data: self.data@,
        }
    }
}

/// An instruction that the host is to run on behalf of an authority record.
#[derive(Clone, Debug, PartialEq, Eq)]
pub struct Invocation {
    /// The instruction to run.
    pub instruction: Instruction,
    /// The accounts to hand to the program, by their positions among the accounts of the
    /// operation that asks for the invocation.
    pub accounts: Vec<usize>,
    /// The seeds with which the record's address signs.
    pub signer_seeds: Seeds,
}

/// What an invocation holds, as plain values.
pub struct InvocationView {
    pub instruction: InstructionView,
    pub accounts: Seq<usize>,
    pub signer_seeds: Seq<Seq<u8>>,
}

impl View for Invocation {
    type V = InvocationView;

    open spec fn view(&self) -> InvocationView {
        InvocationView {
            instruction: self.instruction@,
            accounts: self.accounts@,
            signer_seeds: self.signer_seeds@,
        }
    }
}

/// The system program's instruction that creates the account `to` with `space` bytes, owned by
/// `owner` and funded with `lamports` by `from`. Both accounts sign and may change. The data are
/// the tag 0 as four bytes, then `lamports` and `space` as eight bytes each, the least
/// significant first, then the owner.
pub open spec fn create_account_instruction(
    from: Seq<u8>,
    to: Seq<u8>,
    lamports: u64,
    space: u64,
    owner: Seq<u8>,
) -> InstructionView {
    InstructionView {
        program_id: SYSTEM_PROGRAM_ID@,
        accounts: seq![writable(from, true), writable(to, true)],
        data: seq![0u8, 0u8, 0u8, 0u8] + le_bytes(lamports) + le_bytes(space) + owner,
    }
}

/// The upgradable loader's instruction that hands a program to a new authority: the program's
/// data may change, the current authority signs, the new authority is only named. The data are
/// the tag 4 as four bytes.
pub open spec fn set_upgrade_authority_instruction(
    program_data: Seq<u8>,
    current_authority: Seq<u8>,
    new_authority: Seq<u8>,
) -> InstructionView {
    InstructionView {
        program_id: BPF_LOADER_UPGRADEABLE_ID@,
        accounts: seq![
            writable(program_data, false),
            readonly(current_authority, true),
            readonly(new_authority, false),
        ],
        data: seq![4u8, 0u8, 0u8, 0u8],
    }
}

/// The upgradable loader's instruction that deploys a buffer to a program: the program's data,
/// the program, the buffer and the spill account may change, the two sysvars are read, the
/// authority signs. The data are the tag 3 as four bytes.
pub open spec fn upgrade_instruction(
    program_data: Seq<u8>,
    program: Seq<u8>,
    buffer: Seq<u8>,
    authority: Seq<u8>,
    spill: Seq<u8>,
) -> InstructionView {
    InstructionView {
        program_id: BPF_LOADER_UPGRADEABLE_ID@,
        accounts: seq![
            writable(program_data, false),
            writable(program, false),
            writable(buffer, false),
            writable(spill, false),
            readonly(RENT_SYSVAR_ID@, false),
            readonly(CLOCK_SYSVAR_ID@, false),
            readonly(authority, true),
        ],
        data: seq![3u8, 0u8, 0u8, 0u8],
    }
}

/// Calls `solana_program::system_instruction::create_account`. Trusted: the result is the
/// instruction that `create_account_instruction` states.
#[verifier::external_body]
pub(crate) fn create_account(
    from: &Address,
    to: &Address,
    lamports: u64,
    space: u64,
    owner: &Address,
) -> (instruction: Instruction)
    ensures
        instruction@ == create_account_instruction(from@, to@, lamports, space, owner@),
{
    let made = solana_program::system_instruction::create_account(
        &Pubkey::new_from_array(from.bytes),
        &Pubkey::new_from_array(to.bytes),
        lamports,
        space,
        &Pubkey::new_from_array(owner.bytes),
    );
    let accounts = made.accounts.iter().map(
        |m| AccountMeta::from_parts(m.pubkey.to_bytes(), m.is_signer, m.is_writable),
    ).collect();
    Instruction { program_id: Address { bytes: made.program_id.to_bytes() }, accounts, data: made.data }
}

/// Calls `solana_program::bpf_loader_upgradeable::set_upgrade_authority` with a new authority.
/// Trusted: the result is the instruction that `set_upgrade_authority_instruction` states, on
/// the address that the loader's derivation gives for the program's data. The outside function
/// panics where that derivation gives none.
#[verifier::external_body]
pub(crate) fn set_upgrade_authority(
    program: &Address,
    current_authority: &Address,
    new_authority: &Address,
) -> (instruction: Instruction)
    requires
        program_data_address(program@) is Some,
    ensures
        instruction@ == set_upgrade_authority_instruction(
            program_data_address(program@)->Some_0.0,
            current_authority@,
            new_authority@,
        ),
{
    let made = solana_program::bpf_loader_upgradeable::set_upgrade_authority(
        &Pubkey::new_from_array(program.bytes),
        &Pubkey::new_from_array(current_authority.bytes),
        Some(&Pubkey::new_from_array(new_authority.bytes)),
    );
    let accounts = made.accounts.iter().map(
        |m| AccountMeta::from_parts(m.pubkey.to_bytes(), m.is_signer, m.is_writable),
    ).collect();
    Instruction { program_id: Address { bytes: made.program_id.to_bytes() }, accounts, data: made.data }
}

/// Calls `solana_program::bpf_loader_upgradeable::upgrade`. Trusted: the result is the
/// instruction that `upgrade_instruction` states, on the address that the loader's derivation
/// gives for the program's data. The outside function panics where that derivation gives none.
#[verifier::external_body]
pub(crate) fn upgrade(program: &Address, buffer: &Address, authority: &Address, spill: &Address) -> (instruction:
    Instruction)
    requires
        program_data_address(program@) is Some,
    ensures
        instruction@ == upgrade_instruction(
            program_data_address(program@)->Some_0.0,
            program@,
            buffer@,
            authority@,
            spill@,
        ),
{
    let made = solana_program::bpf_loader_upgradeable::upgrade(
        &Pubkey::new_from_array(program.bytes),
        &Pubkey::new_from_array(buffer.bytes),
        &Pubkey::new_from_array(authority.bytes),
        &Pubkey::new_from_array(spill.bytes),
    );
    let accounts = made.accounts.iter().map(
        |m| AccountMeta::from_parts(m.pubkey.to_bytes(), m.is_signer, m.is_writable),
    ).collect();
    Instruction { program_id: Address { bytes: made.program_id.to_bytes() }, accounts, data: made.data }
}

} // verus!
