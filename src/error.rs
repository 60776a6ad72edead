//! Errors that may arise when verifying a query response.

use vstd::prelude::*;

verus! {

/// Why a query response was rejected.
#[derive(Clone, Copy, Debug, PartialEq, Eq, Structural)]
pub enum ExampleQueriesSolanaVerifyError {
    WriteAuthorityMismatch,
    GuardianSetExpired,
    InvalidMessageHash,
    NoQuorum,
    InvalidGuardianIndexNonIncreasing,
    InvalidGuardianIndexOutOfRange,
    InvalidSignature,
    InvalidGuardianKeyRecovery,
    FailedToParseResponse,
}

impl ExampleQueriesSolanaVerifyError {
    /// The error's name, as the program reports it.
    pub fn name(&self) -> (r: &'static str)
        ensures
            r@ == self.name_spec(),
    {
        match self {
            ExampleQueriesSolanaVerifyError::WriteAuthorityMismatch => "WriteAuthorityMismatch",
            ExampleQueriesSolanaVerifyError::GuardianSetExpired => "GuardianSetExpired",
            ExampleQueriesSolanaVerifyError::InvalidMessageHash => "InvalidMessageHash",
            ExampleQueriesSolanaVerifyError::NoQuorum => "NoQuorum",
            ExampleQueriesSolanaVerifyError::InvalidGuardianIndexNonIncreasing => "InvalidGuardianIndexNonIncreasing",
            ExampleQueriesSolanaVerifyError::InvalidGuardianIndexOutOfRange => "InvalidGuardianIndexOutOfRange",
            ExampleQueriesSolanaVerifyError::InvalidSignature => "InvalidSignature",
            ExampleQueriesSolanaVerifyError::InvalidGuardianKeyRecovery => "InvalidGuardianKeyRecovery",
            ExampleQueriesSolanaVerifyError::FailedToParseResponse => "FailedToParseResponse",
        }
    }

    /// The program-specific error code (before the host adds its offset).
    pub fn code(&self) -> (r: u32)
        ensures
            r == self.code_spec(),
    {
        match self {
            ExampleQueriesSolanaVerifyError::WriteAuthorityMismatch => 0x100,
            ExampleQueriesSolanaVerifyError::GuardianSetExpired => 0x101,
            ExampleQueriesSolanaVerifyError::InvalidMessageHash => 0x102,
            ExampleQueriesSolanaVerifyError::NoQuorum => 0x103,
            ExampleQueriesSolanaVerifyError::InvalidGuardianIndexNonIncreasing => 0x104,
            ExampleQueriesSolanaVerifyError::InvalidGuardianIndexOutOfRange => 0x105,
            ExampleQueriesSolanaVerifyError::InvalidSignature => 0x106,
            ExampleQueriesSolanaVerifyError::InvalidGuardianKeyRecovery => 0x107,
            ExampleQueriesSolanaVerifyError::FailedToParseResponse => 0x110,
        }
    }

    pub open spec fn code_spec(&self) -> u32 {
        match self {
            ExampleQueriesSolanaVerifyError::WriteAuthorityMismatch => 0x100,
            ExampleQueriesSolanaVerifyError::GuardianSetExpired => 0x101,
            ExampleQueriesSolanaVerifyError::InvalidMessageHash => 0x102,
            ExampleQueriesSolanaVerifyError::NoQuorum => 0x103,
            ExampleQueriesSolanaVerifyError::InvalidGuardianIndexNonIncreasing => 0x104,
            ExampleQueriesSolanaVerifyError::InvalidGuardianIndexOutOfRange => 0x105,
            ExampleQueriesSolanaVerifyError::InvalidSignature => 0x106,
            ExampleQueriesSolanaVerifyError::InvalidGuardianKeyRecovery => 0x107,
            ExampleQueriesSolanaVerifyError::FailedToParseResponse => 0x110,
        }
    }

    pub open spec fn name_spec(&self) -> Seq<char> {
        match self {
            ExampleQueriesSolanaVerifyError::WriteAuthorityMismatch => "WriteAuthorityMismatch"@,
            ExampleQueriesSolanaVerifyError::GuardianSetExpired => "GuardianSetExpired"@,
            ExampleQueriesSolanaVerifyError::InvalidMessageHash => "InvalidMessageHash"@,
            ExampleQueriesSolanaVerifyError::NoQuorum => "NoQuorum"@,
            ExampleQueriesSolanaVerifyError::InvalidGuardianIndexNonIncreasing => "InvalidGuardianIndexNonIncreasing"@,
            ExampleQueriesSolanaVerifyError::InvalidGuardianIndexOutOfRange => "InvalidGuardianIndexOutOfRange"@,
            ExampleQueriesSolanaVerifyError::InvalidSignature => "InvalidSignature"@,
            ExampleQueriesSolanaVerifyError::InvalidGuardianKeyRecovery => "InvalidGuardianKeyRecovery"@,
            ExampleQueriesSolanaVerifyError::FailedToParseResponse => "FailedToParseResponse"@,
        }
    }
}

} // verus!
