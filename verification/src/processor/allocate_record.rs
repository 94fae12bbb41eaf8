//! Allocating an empty record slot of a given content length.
//!
//! The allocation itself is the registry's work; this module fixes the
//! size to ask for: the declared content length plus the header.

use vstd::prelude::*;

use crate::error::SnsRecordsError;
use crate::state::record_header::RECORD_HEADER_LEN;

verus! {

/// The requested content length and the record's name under its domain.
pub struct Params {
    /// The length of the content the record will hold.
    pub content_length: u32,
    /// The record's name, from which its storage key is derived.
    pub record: String,
}

/// The slot size to request from the registry for a fresh record: the
/// content length plus the 8-byte header. A total beyond 32 bits fails
/// with `NumericalOverflow`.
pub fn record_space(content_length: u32) -> (r: Result<u32, SnsRecordsError>)
    ensures
        match r {
            Ok(n) => content_length + RECORD_HEADER_LEN <= u32::MAX && n == content_length
                + RECORD_HEADER_LEN,
            Err(e) => e == SnsRecordsError::NumericalOverflow && content_length
                + RECORD_HEADER_LEN > u32::MAX,
        },
{
    if content_length > u32::MAX - (RECORD_HEADER_LEN as u32) {
        return Err(SnsRecordsError::NumericalOverflow);
    }
    Ok(content_length + (RECORD_HEADER_LEN as u32))
}

} // verus!
