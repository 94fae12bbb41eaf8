//! The closed set of validation kinds and the proof-segment length each one
//! demands in a record body.

use vstd::prelude::*;

use crate::error::SnsRecordsError;

verus! {

/// How a record's staleness or right of association has been attested.
///
/// Each kind fixes the byte length of the proof segment that carries its
/// evidence; an unrecognized wire tag is a decode error, never a default.
#[derive(Clone, Copy, Debug, PartialEq, Eq, Structural)]
pub enum Validation {
    /// No attestation; the segment is absent.
    Unvalidated,
    /// Attested by a ledger co-signer; the segment is its 32-byte key.
    Solana,
    /// Attested by a recovered Ethereum signature; the segment is the
    /// 20-byte derived address.
    Ethereum,
    /// A pending 32-byte candidate key awaiting co-signer confirmation.
    UnverifiedSolana,
    /// Attested through a cross-chain ownership record; the segment is a
    /// 2-byte chain identifier followed by a 32-byte foreign address.
    XChain,
}

/// The stable wire tag of each validation kind.
pub open spec fn spec_validation_tag(v: Validation) -> u16 {
    match v {
        Validation::Unvalidated => 0,
        Validation::Solana => 1,
        Validation::Ethereum => 2,
        Validation::UnverifiedSolana => 3,
        Validation::XChain => 4,
    }
}

/// Whether a wire tag names one of the five validation kinds.
pub open spec fn spec_tag_known(tag: u16) -> bool {
    tag <= 4
}

/// The validation kind behind a known wire tag.
pub open spec fn spec_validation_of_tag(tag: u16) -> Validation
    recommends
        spec_tag_known(tag),
{
    if tag == 0 {
        Validation::Unvalidated
    } else if tag == 1 {
        Validation::Solana
    } else if tag == 2 {
        Validation::Ethereum
    } else if tag == 3 {
        Validation::UnverifiedSolana
    } else {
        Validation::XChain
    }
}

/// The proof-segment length that a validation kind demands.
pub open spec fn spec_validation_len(v: Validation) -> u32 {
    match v {
        Validation::Unvalidated => 0,
        Validation::Ethereum => 20,
        Validation::Solana => 32,
        Validation::UnverifiedSolana => 32,
        Validation::XChain => 34,
    }
}

/// The proof-segment length behind a wire tag, written directly over the
/// raw tag so that layout statements need no detour through the enum.
pub open spec fn spec_seg_len(tag: u16) -> nat
    recommends
        spec_tag_known(tag),
{
    spec_validation_len(spec_validation_of_tag(tag)) as nat
}

impl Validation {
    /// The wire tag under which this kind is stored in a record header.
    pub fn tag(self) -> (r: u16)
        ensures
            r == spec_validation_tag(self),
    {
        match self {
            Validation::Unvalidated => 0,
            Validation::Solana => 1,
            Validation::Ethereum => 2,
            Validation::UnverifiedSolana => 3,
            Validation::XChain => 4,
        }
    }

    /// Decodes a wire tag, failing on any value outside the closed set.
    pub fn try_from_tag(tag: u16) -> (r: Result<Validation, SnsRecordsError>)
        ensures
            match r {
                Ok(v) => spec_tag_known(tag) && v == spec_validation_of_tag(tag),
                Err(e) => !spec_tag_known(tag) && e == SnsRecordsError::DataTypeMismatch,
            },
    {
        match tag {
            0 => Ok(Validation::Unvalidated),
            1 => Ok(Validation::Solana),
            2 => Ok(Validation::Ethereum),
            3 => Ok(Validation::UnverifiedSolana),
            4 => Ok(Validation::XChain),
            _ => Err(SnsRecordsError::DataTypeMismatch),
        }
    }
}

/// The proof-segment length of a validation kind, in bytes.
pub fn get_validation_length(validation: Validation) -> (r: u32)
    ensures
        r == spec_validation_len(validation),
{
    match validation {
        Validation::Unvalidated => 0,
        Validation::Ethereum => 20,
        Validation::Solana => 32,
        Validation::UnverifiedSolana => 32,
        Validation::XChain => 34,
    }
}

/// Round trip between a validation kind and its wire tag.
pub proof fn lemma_validation_tag_round_trip(v: Validation)
    ensures
        spec_tag_known(spec_validation_tag(v)),
        spec_validation_of_tag(spec_validation_tag(v)) == v,
{
}

} // verus!
