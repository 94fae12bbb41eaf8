//! The failure taxonomy of record operations.

use vstd::prelude::*;

verus! {

/// Every operation on a record either fully succeeds or aborts with one of
/// these errors; none of them is retried internally.
#[derive(Clone, Copy, Debug, PartialEq, Eq, Structural)]
pub enum SnsRecordsError {
    /// The account is already initialized.
    AlreadyInitialized,
    /// A stored tag or buffer does not decode as the expected data type.
    DataTypeMismatch,
    /// The account has the wrong owner.
    WrongOwner,
    /// The account is uninitialized.
    Uninitialized,
    /// The requested validation kind is not supported by the operation.
    UnsupportedValidation,
    /// The public key could not be recovered from the signature.
    Secp256k1Recover,
    /// The recovered Ethereum address does not match the expected one.
    EthPubkeyMismatch,
    /// The signing domain owner is not the expected one.
    WrongDomainOwner,
    /// A length or offset computation would overflow its fixed-width type.
    NumericalOverflow,
    /// A buffer is shorter than the layout the header declares.
    OutOfBound,
    /// The stored RoA candidate does not match the verifying signer.
    InvalidVerifier,
    /// The record's parent is not the expected domain.
    WrongParent,
    /// The record's class is not the expected central authority.
    WrongClass,
}

/// The stable numeric code of each error, as carried in a custom program
/// error.
pub open spec fn spec_error_code(e: SnsRecordsError) -> u32 {
    match e {
        SnsRecordsError::AlreadyInitialized => 0,
        SnsRecordsError::DataTypeMismatch => 1,
        SnsRecordsError::WrongOwner => 2,
        SnsRecordsError::Uninitialized => 3,
        SnsRecordsError::UnsupportedValidation => 4,
        SnsRecordsError::Secp256k1Recover => 5,
        SnsRecordsError::EthPubkeyMismatch => 6,
        SnsRecordsError::WrongDomainOwner => 7,
        SnsRecordsError::NumericalOverflow => 8,
        SnsRecordsError::OutOfBound => 9,
        SnsRecordsError::InvalidVerifier => 10,
        SnsRecordsError::WrongParent => 11,
        SnsRecordsError::WrongClass => 12,
    }
}

impl SnsRecordsError {
    /// The numeric code under which this error is reported to the calling
    /// environment.
    pub fn error_code(&self) -> (r: u32)
        ensures
            r == spec_error_code(*self),
    {
        match self {
            SnsRecordsError::AlreadyInitialized => 0,
            SnsRecordsError::DataTypeMismatch => 1,
            SnsRecordsError::WrongOwner => 2,
            SnsRecordsError::Uninitialized => 3,
            SnsRecordsError::UnsupportedValidation => 4,
            SnsRecordsError::Secp256k1Recover => 5,
            SnsRecordsError::EthPubkeyMismatch => 6,
            SnsRecordsError::WrongDomainOwner => 7,
            SnsRecordsError::NumericalOverflow => 8,
            SnsRecordsError::OutOfBound => 9,
            SnsRecordsError::InvalidVerifier => 10,
            SnsRecordsError::WrongParent => 11,
            SnsRecordsError::WrongClass => 12,
        }
    }
}

} // verus!
