//! Addresses, the well-known ones among them, and the derivation that ties an authority record
//! to the resource it governs.

use crate::error::ProcessError;
use crate::error::UpgradeError;
use vstd::prelude::*;

verus! {

/// The fixed seed of every authority record's address: the text `admin-upgrade-account`.
pub const PDA_ADMIN_SEED: [u8; 21] = [
    97, 100, 109, 105, 110, 45, 117, 112, 103, 114, 97, 100, 101, 45, 97, 99, 99, 111, 117, 110,
    116,
];

/// The address of the system program, which allocates storage.
pub const SYSTEM_PROGRAM_ID: [u8; 32] = [
    0, 0, 0, 0, 0, 0, 0, 0, 0, 0, 0, 0, 0, 0, 0, 0, 0, 0, 0, 0, 0, 0, 0, 0, 0, 0, 0, 0, 0, 0, 0, 0,
];

/// The address of the upgradable loader, which owns the governed resources.
pub const BPF_LOADER_UPGRADEABLE_ID: [u8; 32] = [
    2, 168, 246, 145, 78, 136, 161, 176, 226, 16, 21, 62, 247, 99, 174, 43, 0, 194, 185, 61, 22,
    193, 36, 210, 192, 83, 122, 16, 4, 128, 0, 0,
];

/// The address of the rent sysvar.
pub const RENT_SYSVAR_ID: [u8; 32] = [
    6, 167, 213, 23, 25, 44, 92, 81, 33, 140, 201, 76, 61, 74, 241, 127, 88, 218, 238, 8, 155, 161,
    253, 68, 227, 219, 217, 138, 0, 0, 0, 0,
];

/// The address of the clock sysvar.
pub const CLOCK_SYSVAR_ID: [u8; 32] = [
    6, 167, 213, 23, 24, 199, 116, 201, 40, 86, 99, 152, 105, 29, 94, 182, 139, 94, 184, 163, 155,
    75, 109, 92, 115, 85, 91, 33, 0, 0, 0, 0,
];

/// A 32-byte identifier of an account: a resource, a record, a program or a signer.
#[derive(Clone, Copy, Debug, Eq, Hash)]
pub struct Address {
    pub bytes: [u8; 32],
}

impl View for Address {
    type V = Seq<u8>;

    open spec fn view(&self) -> Seq<u8> {
        self.bytes@
    }
}

impl PartialEq for Address {
    fn eq(&self, other: &Address) -> (same: bool) {
        crate::bytes::bytes_equal(self.bytes.as_slice(), other.bytes.as_slice())
    }
}

impl vstd::std_specs::cmp::PartialEqSpecImpl for Address {
    open spec fn obeys_eq_spec() -> bool {
        true
    }

    open spec fn eq_spec(&self, other: &Address) -> bool {
        self@ == other@
    }
}

impl Address {
    /// The address with the given bytes.
    pub fn new_from_array(bytes: [u8; 32]) -> (address: Address)
        ensures
            address@ == bytes@,
            address.bytes == bytes,
    {
        Address { bytes }
    }

    /// The bytes of the address.
    pub fn to_bytes(&self) -> (bytes: [u8; 32])
        ensures
            bytes@ == self@,
            bytes == self.bytes,
    {
        self.bytes
    }

    /// The bytes of the address, as a freshly allocated vector.
    pub fn to_vec(&self) -> (bytes: Vec<u8>)
        ensures
            bytes@ == self@,
    {
        vstd::slice::slice_to_vec(self.bytes.as_slice())
    }
}

/// The byte strings from which an address is derived, or with which a derived address signs.
#[derive(Clone, Debug, PartialEq, Eq)]
pub struct Seeds {
    pub parts: Vec<Vec<u8>>,
}

impl View for Seeds {
    type V = Seq<Seq<u8>>;

    open spec fn view(&self) -> Seq<Seq<u8>> {
        Seq::new(self.parts@.len(), |i: int| self.parts@[i]@)
    }
}

impl Seeds {
    /// No seeds.
    pub fn new() -> (seeds: Seeds)
        ensures
            seeds@ == Seq::<Seq<u8>>::empty(),
    {
        let seeds = Seeds { parts: Vec::new() };
        assert(seeds@ =~= Seq::<Seq<u8>>::empty());
        seeds
    }

    /// A copy of the seeds.
    pub fn duplicate(&self) -> (copy: Seeds)
        ensures
            copy@ == self@,
    {
        let mut copy = Seeds::new();
        let mut i: usize = 0;
        while i < self.parts.len()
            invariant
                i <= self.parts@.len(),
                copy@ == self@.subrange(0, i as int),
            decreases self.parts@.len() - i,
        {
            copy.push(self.parts[i].as_slice());
            i += 1;
            assert(copy@ =~= self@.subrange(0, i as int));
        }
        assert(copy@ =~= self@);
        copy
    }

    /// Adds a copy of `part` after the seeds already there.
    pub fn push(&mut self, part: &[u8])
        ensures
            final(self)@ == old(self)@.push(part@),
    {
        self.parts.push(vstd::slice::slice_to_vec(part));
        assert(self@ =~= old(self)@.push(part@));
    }
}

/// The seeds of the address of the authority record of `contract`.
pub open spec fn admin_seeds(contract: Seq<u8>) -> Seq<Seq<u8>> {
    seq![PDA_ADMIN_SEED@, contract]
}

/// The seeds with which the authority record of `contract` signs: those of its address and the
/// bump that the derivation found.
pub open spec fn signer_seeds(contract: Seq<u8>, bump: u8) -> Seq<Seq<u8>> {
    seq![PDA_ADMIN_SEED@, contract, seq![bump]]
}

/// What the host's address derivation gives for `seeds` under `program_id`: the derived address
/// and its bump seed, or nothing where no bump gives an address.
pub uninterp spec fn program_address(seeds: Seq<Seq<u8>>, program_id: Seq<u8>) -> Option<
    (Seq<u8>, u8),
>;

/// The view of a derivation's result.
pub open spec fn derived_view(derived: Option<(Address, u8)>) -> Option<(Seq<u8>, u8)> {
    match derived {
        Some((address, bump)) => Some((address@, bump)),
        None => None,
    }
}

/// Calls `solana_program::pubkey::Pubkey::try_find_program_address`. Trusted: the result is the
/// derivation named by `program_address` for the same seeds and program; the derivation is a
/// function of its arguments alone.
#[verifier::external_body]
fn try_find_program_address(seeds: &Seeds, program_id: &Address) -> (found: Option<(Address, u8)>)
    ensures
        derived_view(found) == program_address(seeds@, program_id@),
{
    let parts: Vec<&[u8]> = seeds.parts.iter().map(|part| part.as_slice()).collect();
    let program = solana_program::pubkey::Pubkey::new_from_array(program_id.bytes);
    match solana_program::pubkey::Pubkey::try_find_program_address(&parts, &program) {
        Some((address, bump)) => Some((Address { bytes: address.to_bytes() }, bump)),
        None => None,
    }
}

/// The address at which `program_id` keeps the authority record of `contract`, with its bump.
pub open spec fn admin_address(program_id: Seq<u8>, contract: Seq<u8>) -> Option<(Seq<u8>, u8)> {
    program_address(admin_seeds(contract), program_id)
}

/// The address at which the upgradable loader keeps the program data of `program`, with its bump.
pub open spec fn program_data_address(program: Seq<u8>) -> Option<(Seq<u8>, u8)> {
    program_address(seq![program], BPF_LOADER_UPGRADEABLE_ID@)
}

/// Derives the address of the authority record that `program_id` keeps for `contract`.
pub fn find_admin_address(program_id: &Address, contract: &Address) -> (found: Option<
    (Address, u8),
>)
    ensures
        derived_view(found) == admin_address(program_id@, contract@),
{
    let mut seeds = Seeds::new();
    let seed = PDA_ADMIN_SEED;
    seeds.push(seed.as_slice());
    seeds.push(contract.bytes.as_slice());
    assert(seeds@ =~= admin_seeds(contract@));
    try_find_program_address(&seeds, program_id)
}

/// Derives the address of the program data that the upgradable loader keeps for `program`.
pub fn find_program_data_address(program: &Address) -> (found: Option<(Address, u8)>)
    ensures
        derived_view(found) == program_data_address(program@),
{
    let mut seeds = Seeds::new();
    seeds.push(program.bytes.as_slice());
    assert(seeds@ =~= seq![program@]);
    let loader = Address::new_from_array(BPF_LOADER_UPGRADEABLE_ID);
    try_find_program_address(&seeds, &loader)
}

/// The seeds with which the authority record of `contract` signs.
pub fn admin_signer_seeds(contract: &Address, bump: u8) -> (seeds: Seeds)
    ensures
        seeds@ == signer_seeds(contract@, bump),
{
    let mut seeds = Seeds::new();
    let seed = PDA_ADMIN_SEED;
    seeds.push(seed.as_slice());
    seeds.push(contract.bytes.as_slice());
    let last = [bump];
    assert(last@ =~= seq![bump]);
    seeds.push(last.as_slice());
    assert(seeds@ =~= signer_seeds(contract@, bump));
    seeds
}

/// What the binding of a record's address to its resource decides: the bump of the derived
/// address where `supplied` is that address, `mismatch` where it is another, and
/// `NoProgramAddress` where the derivation gave none.
pub open spec fn address_binding(
    derived: Option<(Seq<u8>, u8)>,
    supplied: Seq<u8>,
    mismatch: UpgradeError,
) -> Result<u8, ProcessError> {
    match derived {
        None => Err(ProcessError::NoProgramAddress),
        Some((address, bump)) => if address == supplied {
            Ok(bump)
        } else {
            Err(ProcessError::Upgrade(mismatch))
        },
    }
}

/// Checks that `supplied` is the address that was derived for a resource.
pub fn check_admin_address(
    derived: Option<(Address, u8)>,
    supplied: &Address,
    mismatch: UpgradeError,
) -> (bound: Result<u8, ProcessError>)
    ensures
        bound == address_binding(derived_view(derived), supplied@, mismatch),
{
    match derived {
        None => Err(ProcessError::NoProgramAddress),
        Some((address, bump)) => {
            if address == *supplied {
                Ok(bump)
            } else {
                Err(ProcessError::Upgrade(mismatch))
            }
        },
    }
}

} // verus!
