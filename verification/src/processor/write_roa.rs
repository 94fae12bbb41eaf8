//! Writing a pending right-of-association candidate into a record.

use vstd::prelude::*;

use crate::buffer::append_bytes;
use crate::error::SnsRecordsError;
use crate::state::record_body::{
    spec_body_well_formed, spec_roa_end, spec_staleness_end, split_body,
};
use crate::state::record_header::RecordHeader;
use crate::state::validation::{spec_tag_known, spec_validation_tag, Validation};

verus! {

/// The 32-byte candidate identity to store as the pending RoA claim.
pub struct Params {
    /// The candidate identity awaiting confirmation.
    pub roa_id: Vec<u8>,
}

/// The write-RoA transition: the RoA segment becomes the 32-byte
/// candidate, the RoA tag becomes `UnverifiedSolana`, and the staleness
/// segment and content are preserved around it.
pub open spec fn spec_write_roa(h: RecordHeader, body: Seq<u8>, roa_id: Seq<u8>) -> Result<
    (RecordHeader, Seq<u8>),
    SnsRecordsError,
> {
    if !(spec_tag_known(h.staleness_validation) && spec_tag_known(
        h.right_of_association_validation,
    )) {
        Err(SnsRecordsError::DataTypeMismatch)
    } else if body.len() < spec_roa_end(h) {
        Err(SnsRecordsError::OutOfBound)
    } else {
        Ok(
            (
                RecordHeader {
                    staleness_validation: h.staleness_validation,
                    right_of_association_validation: spec_validation_tag(
                        Validation::UnverifiedSolana,
                    ),
                    content_length: h.content_length,
                },
                body.subrange(0, spec_staleness_end(h)) + roa_id + body.subrange(
                    spec_roa_end(h),
                    body.len() as int,
                ),
            ),
        )
    }
}

/// Splices a 32-byte candidate identity in as the new RoA segment and
/// marks it `UnverifiedSolana`: a pending claim awaiting confirmation.
///
/// Whatever RoA segment was stored before is replaced; the staleness
/// segment and content are untouched, so a well-formed record stays
/// well-formed.
pub fn write_roa(header: &RecordHeader, body: &[u8], roa_id: &[u8]) -> (r: Result<
    (RecordHeader, Vec<u8>),
    SnsRecordsError,
>)
    requires
        roa_id@.len() == 32,
    ensures
        ({
            let s = spec_write_roa(*header, body@, roa_id@);
            match r {
                Ok(p) => s is Ok && p.0 == s->Ok_0.0 && p.1@ == s->Ok_0.1,
                Err(e) => s is Err && e == s->Err_0,
            }
        }),
        r is Ok && spec_body_well_formed(*header, body@) ==> spec_body_well_formed(
            r->Ok_0.0,
            r->Ok_0.1@,
        ),
{
    let parts = split_body(header, body)?;
    let new_header = RecordHeader {
        staleness_validation: header.staleness_validation,
        right_of_association_validation: Validation::UnverifiedSolana.tag(),
        content_length: header.content_length,
    };
    let mut new_body: Vec<u8> = Vec::new();
    append_bytes(&mut new_body, parts.0.as_slice());
    append_bytes(&mut new_body, roa_id);
    append_bytes(&mut new_body, parts.2.as_slice());
    proof {
        assert(new_body@ =~= body@.subrange(0, spec_staleness_end(*header)) + roa_id@
            + body@.subrange(spec_roa_end(*header), body@.len() as int));
    }
    Ok((new_header, new_body))
}

} // verus!
