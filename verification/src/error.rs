//! What can go wrong, and how it is reported.

use vstd::prelude::*;
use vstd::string::StringExecFns;

verus! {

/// The derivation setting that is out of range.
#[derive(Clone, Copy, Debug, PartialEq, Eq)]
pub enum ParamFault {
    /// The memory cost is below 8 KiB, or below 8 KiB per lane.
    MemoryTooLittle,
    /// The iteration count is zero.
    TimeTooSmall,
    /// The degree of parallelism is zero.
    ThreadsTooFew,
    /// The degree of parallelism is above 2^24 - 1.
    ThreadsTooMany,
    /// The output is shorter than 4 bytes.
    OutputTooShort,
    /// The output is longer than 2^32 - 1 bytes.
    OutputTooLong,
}

/// Why the derivation itself could not run on valid settings.
#[derive(Clone, Copy, Debug, PartialEq, Eq)]
pub enum HashFault {
    /// The memory cost is more than this machine can address.
    MemoryTooMuch,
    /// The output is longer than this machine can address.
    OutputTooLong,
    /// The input phrase is longer than 2^32 - 1 bytes.
    PasswordTooLong,
    /// The pepper is shorter than 8 bytes.
    SaltTooShort,
    /// The pepper is longer than 2^32 - 1 bytes.
    SaltTooLong,
    /// Argon2 refused for a reason that belongs to no setting and no input.
    Unexplained,
}

/// The check on which Argon2 refused a derivation.
#[derive(Clone, Copy, Debug, PartialEq, Eq)]
pub enum Argon2Fault {
    /// The memory cost is below 8 KiB, or below 8 KiB per lane.
    MemoryTooLittle,
    /// The iteration count is zero.
    TimeTooSmall,
    /// The degree of parallelism is zero.
    ThreadsTooFew,
    /// The degree of parallelism is above 2^24 - 1.
    ThreadsTooMany,
    /// The output is shorter than 4 bytes.
    OutputTooShort,
    /// The output is longer than 2^32 - 1 bytes.
    OutputTooLong,
    /// The input phrase is longer than 2^32 - 1 bytes.
    PasswordTooLong,
    /// The pepper is shorter than 8 bytes.
    SaltTooShort,
    /// The pepper is longer than 2^32 - 1 bytes.
    SaltTooLong,
    /// Any other reason.
    Other,
}

/// Every failure that a caller can be handed. None of them carries the
/// pepper or the input phrase.
#[derive(Clone, Debug, PartialEq, Eq)]
pub enum SecretError {
    /// No pepper was acquired at startup, so nothing can be derived.
    VaultUninitialized,
    /// The derivation settings were rejected.
    Parameter(ParamFault),
    /// The settings were accepted and the derivation failed.
    Derivation(HashFault),
    /// The platform refused access to the clipboard; the text is its reason.
    Clipboard(String),
    /// A vault was offered to a store that already holds one.
    DoubleInitialization,
}

impl ParamFault {
    /// The wording for this fault.
    pub open spec fn text(self) -> Seq<char> {
        match self {
            ParamFault::MemoryTooLittle => "memory cost is too small"@,
            ParamFault::TimeTooSmall => "time cost is too small"@,
            ParamFault::ThreadsTooFew => "not enough threads"@,
            ParamFault::ThreadsTooMany => "too many threads"@,
            ParamFault::OutputTooShort => "output is too short"@,
            ParamFault::OutputTooLong => "output is too long"@,
        }
    }

    /// Names the setting at fault.
    pub fn describe(&self) -> (words: &'static str)
        ensures
            words@ == self.text(),
    {
        match self {
            ParamFault::MemoryTooLittle => "memory cost is too small",
            ParamFault::TimeTooSmall => "time cost is too small",
            ParamFault::ThreadsTooFew => "not enough threads",
            ParamFault::ThreadsTooMany => "too many threads",
            ParamFault::OutputTooShort => "output is too short",
            ParamFault::OutputTooLong => "output is too long",
        }
    }
}

impl HashFault {
    /// The wording for this fault.
    pub open spec fn text(self) -> Seq<char> {
        match self {
            HashFault::MemoryTooMuch => "memory cost is too large"@,
            HashFault::OutputTooLong => "output is too long"@,
            HashFault::PasswordTooLong => "password is too long"@,
            HashFault::SaltTooShort => "salt is too short"@,
            HashFault::SaltTooLong => "salt is too long"@,
            HashFault::Unexplained => "derivation failed"@,
        }
    }

    /// Names what the derivation stumbled on.
    pub fn describe(&self) -> (words: &'static str)
        ensures
            words@ == self.text(),
    {
        match self {
            HashFault::MemoryTooMuch => "memory cost is too large",
            HashFault::OutputTooLong => "output is too long",
            HashFault::PasswordTooLong => "password is too long",
            HashFault::SaltTooShort => "salt is too short",
            HashFault::SaltTooLong => "salt is too long",
            HashFault::Unexplained => "derivation failed",
        }
    }
}

/// The error for a refusal by Argon2: a refused setting is a parameter error,
/// a refused input or anything else is a failure of the derivation.
pub open spec fn staged(fault: Argon2Fault) -> SecretError {
    match fault {
        Argon2Fault::MemoryTooLittle => SecretError::Parameter(ParamFault::MemoryTooLittle),
        Argon2Fault::TimeTooSmall => SecretError::Parameter(ParamFault::TimeTooSmall),
        Argon2Fault::ThreadsTooFew => SecretError::Parameter(ParamFault::ThreadsTooFew),
        Argon2Fault::ThreadsTooMany => SecretError::Parameter(ParamFault::ThreadsTooMany),
        Argon2Fault::OutputTooShort => SecretError::Parameter(ParamFault::OutputTooShort),
        Argon2Fault::OutputTooLong => SecretError::Parameter(ParamFault::OutputTooLong),
        Argon2Fault::PasswordTooLong => SecretError::Derivation(HashFault::PasswordTooLong),
        Argon2Fault::SaltTooShort => SecretError::Derivation(HashFault::SaltTooShort),
        Argon2Fault::SaltTooLong => SecretError::Derivation(HashFault::SaltTooLong),
        Argon2Fault::Other => SecretError::Derivation(HashFault::Unexplained),
    }
}

impl SecretError {
    /// Sorts a refusal by Argon2 into the stage that it belongs to.
    pub fn from_fault(fault: Argon2Fault) -> (error: SecretError)
        ensures
            error == staged(fault),
    {
        match fault {
            Argon2Fault::MemoryTooLittle => SecretError::Parameter(ParamFault::MemoryTooLittle),
            Argon2Fault::TimeTooSmall => SecretError::Parameter(ParamFault::TimeTooSmall),
            Argon2Fault::ThreadsTooFew => SecretError::Parameter(ParamFault::ThreadsTooFew),
            Argon2Fault::ThreadsTooMany => SecretError::Parameter(ParamFault::ThreadsTooMany),
            Argon2Fault::OutputTooShort => SecretError::Parameter(ParamFault::OutputTooShort),
            Argon2Fault::OutputTooLong => SecretError::Parameter(ParamFault::OutputTooLong),
            Argon2Fault::PasswordTooLong => SecretError::Derivation(HashFault::PasswordTooLong),
            Argon2Fault::SaltTooShort => SecretError::Derivation(HashFault::SaltTooShort),
            Argon2Fault::SaltTooLong => SecretError::Derivation(HashFault::SaltTooLong),
            Argon2Fault::Other => SecretError::Derivation(HashFault::Unexplained),
        }
    }

    /// The message for this error: the stage that failed, then what failed
    /// there.
    pub open spec fn text(self) -> Seq<char> {
        match self {
            SecretError::VaultUninitialized => "SALT_PHRASE was not initialized at startup"@,
            SecretError::Parameter(fault) => "Argon2 Params Error: "@ + fault.text(),
            SecretError::Derivation(fault) => "Hashing Error: "@ + fault.text(),
            SecretError::Clipboard(reason) => reason@,
            SecretError::DoubleInitialization => "OBFUSCATED_SALT was already initialized"@,
        }
    }

    /// Renders the error for the caller.
    pub fn message(&self) -> (words: String)
        ensures
            words@ == self.text(),
    {
        match self {
            SecretError::VaultUninitialized => String::from_str(
                "SALT_PHRASE was not initialized at startup",
            ),
            SecretError::Parameter(fault) => String::from_str("Argon2 Params Error: ").concat(
                fault.describe(),
            ),
            SecretError::Derivation(fault) => String::from_str("Hashing Error: ").concat(
                fault.describe(),
            ),
            SecretError::Clipboard(reason) => reason.clone(),
            SecretError::DoubleInitialization => String::from_str(
                "OBFUSCATED_SALT was already initialized",
            ),
        }
    }
}

} // verus!
