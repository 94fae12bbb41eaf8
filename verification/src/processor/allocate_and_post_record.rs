//! Allocating a record and posting its initial content in one call.

use vstd::prelude::*;

use crate::buffer::append_bytes;
use crate::state::record_body::spec_body_well_formed;
use crate::state::record_header::{spec_header_bytes, RecordHeader};

verus! {

/// The record's name and its initial content.
pub struct Params {
    /// The record's name, from which its storage key is derived.
    pub record: String,
    /// The content to post.
    pub content: Vec<u8>,
}

/// The bytes of a freshly posted record: a header with both attestations
/// unset and the content's length, followed by the content itself.
///
/// Editing an existing record writes the same bytes: overwriting content
/// resets both attestations.
pub fn initial_record_data(content: &[u8]) -> (r: Vec<u8>)
    requires
        content@.len() <= u32::MAX,
    ensures
        r@ == spec_header_bytes(
            RecordHeader {
                staleness_validation: 0,
                right_of_association_validation: 0,
                content_length: content@.len() as u32,
            },
        ) + content@,
        spec_body_well_formed(
            RecordHeader {
                staleness_validation: 0,
                right_of_association_validation: 0,
                content_length: content@.len() as u32,
            },
            content@,
        ),
{
    let header = RecordHeader::new(content.len() as u32);
    let mut data = header.encode();
    append_bytes(&mut data, content);
    data
}

} // verus!
