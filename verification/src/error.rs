//! Error types

use vstd::prelude::*;

verus! {

/// The ways in which an operation on an authority record is refused.
#[derive(Clone, Copy, Debug, PartialEq, Eq, Structural)]
pub enum UpgradeError {
    /// The record cannot be initialized because it is already in use.
    AlreadyInUse,
    /// The record has not been initialized.
    NotInitialized,
    /// The record's address is not the one derived for the resource being initialized.
    WrongAdmin,
    /// The record's address is not the one derived for the resource it governs.
    WrongSeeds,
    /// The signature recovers to a key other than the record's.
    WrongSignature,
    /// No key can be recovered from the signature.
    InvalidSignature,
}

impl UpgradeError {
    /// The position of the variant in the declaration.
    pub open spec fn spec_code(self) -> u32 {
        match self {
            UpgradeError::AlreadyInUse => 0,
            UpgradeError::NotInitialized => 1,
            UpgradeError::WrongAdmin => 2,
            UpgradeError::WrongSeeds => 3,
            UpgradeError::WrongSignature => 4,
            UpgradeError::InvalidSignature => 5,
        }
    }

    /// The number under which the host reports this error.
    #[verifier::when_used_as_spec(spec_code)]
    pub fn code(self) -> (code: u32)
        ensures
            code == self.spec_code(),
    {
        match self {
            UpgradeError::AlreadyInUse => 0,
            UpgradeError::NotInitialized => 1,
            UpgradeError::WrongAdmin => 2,
            UpgradeError::WrongSeeds => 3,
            UpgradeError::WrongSignature => 4,
            UpgradeError::InvalidSignature => 5,
        }
    }

    /// The error that the host reports under `code`, if there is one.
    pub fn from_code(code: u32) -> (error: Option<UpgradeError>)
        ensures
            match error {
                Some(e) => e.spec_code() == code,
                None => code > 5,
            },
    {
        match code {
            0 => Some(UpgradeError::AlreadyInUse),
            1 => Some(UpgradeError::NotInitialized),
            2 => Some(UpgradeError::WrongAdmin),
            3 => Some(UpgradeError::WrongSeeds),
            4 => Some(UpgradeError::WrongSignature),
            5 => Some(UpgradeError::InvalidSignature),
            _ => None,
        }
    }

    /// The text that describes the error.
    pub open spec fn spec_message(self) -> Seq<char> {
        match self {
            UpgradeError::AlreadyInUse => "Already in use"@,
            UpgradeError::NotInitialized => "Not initialized"@,
            UpgradeError::WrongAdmin => "Wrong admin"@,
            UpgradeError::WrongSeeds => "Wrong seeds"@,
            UpgradeError::WrongSignature => "Wrong signature public key"@,
            UpgradeError::InvalidSignature => "Invalid signature"@,
        }
    }

    /// The text that describes the error.
    pub fn message(self) -> (text: String)
        ensures
            text@ == self.spec_message(),
    {
        match self {
            UpgradeError::AlreadyInUse => "Already in use".to_owned(),
            UpgradeError::NotInitialized => "Not initialized".to_owned(),
            UpgradeError::WrongAdmin => "Wrong admin".to_owned(),
            UpgradeError::WrongSeeds => "Wrong seeds".to_owned(),
            UpgradeError::WrongSignature => "Wrong signature public key".to_owned(),
            UpgradeError::InvalidSignature => "Invalid signature".to_owned(),
        }
    }
}

/// The ways in which bytes fail to spell a record or an instruction, or storage to take one.
#[derive(Clone, Copy, Debug, PartialEq, Eq, Structural)]
pub enum CodecError {
    /// The bytes end before the value does.
    UnexpectedLength,
    /// The byte of a flag is neither 0 nor 1.
    InvalidBool(u8),
    /// The tag names no operation.
    UnexpectedVariant(u8),
    /// Bytes are left after the value.
    NotAllBytesRead,
    /// The storage is too short for the value.
    WriteZero,
}

/// Why a handler did not accept an operation.
#[derive(Clone, Copy, Debug, PartialEq, Eq, Structural)]
pub enum ProcessError {
    /// A precondition of the operation does not hold.
    Upgrade(UpgradeError),
    /// The operation names fewer accounts than it needs.
    NotEnoughAccountKeys,
    /// The instruction or the record's storage could not be decoded.
    Codec(CodecError),
    /// No address can be derived for the resource.
    NoProgramAddress,
    /// The record's nonce cannot be increased any further.
    NonceOverflow,
}

} // verus!
