//! Planning the resize-and-rewrite step that persists a transition.
//!
//! Every transition ends by writing `header ‖ body` back into the record's
//! storage slot; when the new body length differs from the stored one, the
//! slot must first be resized, and only after the resize has fully
//! succeeded may any byte be overwritten.

use vstd::prelude::*;

use crate::buffer::append_bytes;
use crate::error::SnsRecordsError;
use crate::state::record_header::{spec_header_bytes, RecordHeader, RECORD_HEADER_LEN};

verus! {

/// What a caller must do to persist a rewritten record: resize the slot
/// first when asked to, then write `data` over header and body in one
/// pass.
pub struct RewritePlan {
    /// The slot size to request from the registry before writing, when the
    /// body length changed; `None` when the stored length already fits.
    pub resize_to: Option<u32>,
    /// The bytes to write: the encoded header followed by the new body.
    pub data: Vec<u8>,
}

/// Concatenates an encoded header and a body into the bytes of one
/// write.
pub fn assemble_record_data(header: &RecordHeader, body: &[u8]) -> (r: Vec<u8>)
    ensures
        r@ == spec_header_bytes(*header) + body@,
{
    let mut data = header.encode();
    append_bytes(&mut data, body);
    data
}

/// Plans the write that persists a new header and body over a record
/// whose stored body is `stored_body_len` bytes long.
///
/// A resize is requested exactly when the body length changes, to the new
/// body length plus the header size; a new total beyond 32 bits fails
/// with `NumericalOverflow` before anything is written.
pub fn plan_rewrite(stored_body_len: usize, header: &RecordHeader, new_body: &[u8]) -> (r: Result<
    RewritePlan,
    SnsRecordsError,
>)
    ensures
        match r {
            Ok(p) => {
                &&& p.data@ == spec_header_bytes(*header) + new_body@
                &&& (new_body@.len() == stored_body_len <==> p.resize_to is None)
                &&& (p.resize_to is Some ==> p.resize_to->Some_0 == new_body@.len()
                    + RECORD_HEADER_LEN)
            },
            Err(e) => e == SnsRecordsError::NumericalOverflow && new_body@.len()
                != stored_body_len && new_body@.len() + RECORD_HEADER_LEN > u32::MAX,
        },
{
    let resize_to: Option<u32> = if new_body.len() != stored_body_len {
        if new_body.len() > (u32::MAX as usize) - RECORD_HEADER_LEN {
            return Err(SnsRecordsError::NumericalOverflow);
        }
        Some((new_body.len() + RECORD_HEADER_LEN) as u32)
    } else {
        None
    };
    let data = assemble_record_data(header, new_body);
    Ok(RewritePlan { resize_to, data })
}

} // verus!
