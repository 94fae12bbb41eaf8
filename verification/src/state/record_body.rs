//! Splitting and joining a record body along the segment boundaries that
//! its header declares.

use vstd::prelude::*;
use vstd::slice::{slice_subrange, slice_to_vec};

use crate::buffer::append_bytes;
use crate::error::SnsRecordsError;
use crate::state::record_header::RecordHeader;
use crate::state::validation::{get_validation_length, spec_seg_len, spec_tag_known, Validation};

verus! {

/// The segment-length invariant of every stored record: both tags are
/// known, and the body is exactly a staleness segment, an RoA segment and
/// the declared content, in that order.
pub open spec fn spec_body_well_formed(h: RecordHeader, body: Seq<u8>) -> bool {
    &&& spec_tag_known(h.staleness_validation)
    &&& spec_tag_known(h.right_of_association_validation)
    &&& body.len() == spec_seg_len(h.staleness_validation) + spec_seg_len(
        h.right_of_association_validation,
    ) + h.content_length
}

/// Where the body's three parts begin and end, determined only by the
/// header's current tags, never inferred from the bytes themselves.
pub open spec fn spec_staleness_end(h: RecordHeader) -> int {
    spec_seg_len(h.staleness_validation) as int
}

/// The first byte of content: the end of the RoA segment.
pub open spec fn spec_roa_end(h: RecordHeader) -> int {
    spec_staleness_end(h) + spec_seg_len(h.right_of_association_validation)
}

/// Slices a body into its staleness segment, RoA segment and content.
///
/// Fails with `DataTypeMismatch` when a header tag is outside the closed
/// set of validation kinds, and with `OutOfBound` when the body is shorter
/// than the two proof segments the header declares.
pub fn split_body(header: &RecordHeader, body: &[u8]) -> (r: Result<
    (Vec<u8>, Vec<u8>, Vec<u8>),
    SnsRecordsError,
>)
    ensures
        match r {
            Ok(parts) => {
                &&& spec_tag_known(header.staleness_validation)
                &&& spec_tag_known(header.right_of_association_validation)
                &&& body@.len() >= spec_roa_end(*header)
                &&& parts.0@ == body@.subrange(0, spec_staleness_end(*header))
                &&& parts.1@ == body@.subrange(spec_staleness_end(*header), spec_roa_end(*header))
                &&& parts.2@ == body@.subrange(spec_roa_end(*header), body@.len() as int)
            },
            Err(e) => {
                &&& !(spec_tag_known(header.staleness_validation) && spec_tag_known(
                    header.right_of_association_validation,
                ) && body@.len() >= spec_roa_end(*header))
                &&& (e == SnsRecordsError::DataTypeMismatch <==> !(spec_tag_known(
                    header.staleness_validation,
                ) && spec_tag_known(header.right_of_association_validation)))
                &&& (e == SnsRecordsError::OutOfBound <==> spec_tag_known(
                    header.staleness_validation,
                ) && spec_tag_known(header.right_of_association_validation) && body@.len()
                    < spec_roa_end(*header))
            },
        },
{
    let staleness_kind = Validation::try_from_tag(header.staleness_validation)?;
    let roa_kind = Validation::try_from_tag(header.right_of_association_validation)?;
    let staleness_len = get_validation_length(staleness_kind) as usize;
    let roa_len = get_validation_length(roa_kind) as usize;
    if body.len() < staleness_len + roa_len {
        return Err(SnsRecordsError::OutOfBound);
    }
    let staleness_segment = slice_to_vec(slice_subrange(body, 0, staleness_len));
    let roa_segment = slice_to_vec(slice_subrange(body, staleness_len, staleness_len + roa_len));
    let content = slice_to_vec(slice_subrange(body, staleness_len + roa_len, body.len()));
    Ok((staleness_segment, roa_segment, content))
}

/// Concatenates a staleness segment, an RoA segment and content into a
/// body, in that fixed order.
pub fn join_body(staleness_segment: &[u8], roa_segment: &[u8], content: &[u8]) -> (r: Vec<u8>)
    ensures
        r@ == staleness_segment@ + roa_segment@ + content@,
{
    let mut body: Vec<u8> = Vec::new();
    append_bytes(&mut body, staleness_segment);
    append_bytes(&mut body, roa_segment);
    append_bytes(&mut body, content);
    proof {
        assert(body@ =~= staleness_segment@ + roa_segment@ + content@);
    }
    body
}

/// Splitting a well-formed body yields segments of exactly the declared
/// lengths, and joining them back gives the body unchanged.
pub proof fn lemma_split_join_round_trip(h: RecordHeader, body: Seq<u8>)
    requires
        spec_body_well_formed(h, body),
    ensures
        body.subrange(0, spec_staleness_end(h)).len() == spec_seg_len(h.staleness_validation),
        body.subrange(spec_staleness_end(h), spec_roa_end(h)).len() == spec_seg_len(
            h.right_of_association_validation,
        ),
        body.subrange(spec_roa_end(h), body.len() as int).len() == h.content_length,
        body.subrange(0, spec_staleness_end(h)) + body.subrange(
            spec_staleness_end(h),
            spec_roa_end(h),
        ) + body.subrange(spec_roa_end(h), body.len() as int) == body,
{
    assert(body.subrange(0, spec_staleness_end(h)) + body.subrange(
        spec_staleness_end(h),
        spec_roa_end(h),
    ) + body.subrange(spec_roa_end(h), body.len() as int) =~= body);
}

} // verus!
