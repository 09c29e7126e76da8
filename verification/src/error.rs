//! Why an instruction is refused.

use vstd::prelude::*;

verus! {

/// The reasons for which an instruction is refused. A refused instruction
/// leaves the accounts as they were.
#[derive(Clone, Copy, Debug, PartialEq, Eq)]
pub enum AuditRegistryError {
    /// The version of a new registry is zero.
    InvalidVersion,
    /// The metadata URI is longer than `Registry::URI_LIMIT` bytes.
    UriTooLong,
    /// A registry already lives at the address.
    AlreadyExists,
    /// No registry lives at the address.
    NotFound,
    /// The caller is not the authority of the registry.
    Unauthorized,
    /// The account is not the one at the address that the authority and the
    /// bump seed derive.
    AddressBindingInvalid,
}

impl AuditRegistryError {
    /// The message that goes with the error.
    pub fn message(&self) -> (text: &'static str)
        ensures
            text@ == self.message_text(),
    {
        match self {
            AuditRegistryError::InvalidVersion => "Version must be greater than zero",
            AuditRegistryError::UriTooLong => "Metadata URI exceeds limit",
            AuditRegistryError::AlreadyExists => "Registry already exists",
            AuditRegistryError::NotFound => "Registry not found",
            AuditRegistryError::Unauthorized => "Caller is not the registry authority",
            AuditRegistryError::AddressBindingInvalid => "Registry address does not match its seeds",
        }
    }

    /// The characters of the message.
    pub open spec fn message_text(&self) -> Seq<char> {
        match self {
            AuditRegistryError::InvalidVersion => "Version must be greater than zero"@,
            AuditRegistryError::UriTooLong => "Metadata URI exceeds limit"@,
            AuditRegistryError::AlreadyExists => "Registry already exists"@,
            AuditRegistryError::NotFound => "Registry not found"@,
            AuditRegistryError::Unauthorized => "Caller is not the registry authority"@,
            AuditRegistryError::AddressBindingInvalid => "Registry address does not match its seeds"@,
        }
    }
}

} // verus!
