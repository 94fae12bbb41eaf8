//! The fixed 8-byte record header and its little-endian codec.

use vstd::bytes::{
    lemma_auto_spec_u16_to_from_le_bytes, lemma_auto_spec_u32_to_from_le_bytes,
    spec_u16_from_le_bytes, spec_u16_to_le_bytes, spec_u32_from_le_bytes, spec_u32_to_le_bytes,
    u16_from_le_bytes, u16_to_le_bytes, u32_from_le_bytes, u32_to_le_bytes,
};
use vstd::prelude::*;
use vstd::slice::slice_subrange;

verus! {

/// The number of bytes of each record header: two 16-bit validation tags
/// and a 32-bit content length, little-endian, no padding.
pub const RECORD_HEADER_LEN: usize = 8;

/// The number of prefix bytes that the external registry keeps in front of
/// the header in a persisted record buffer.
pub const REGISTRY_PREFIX_LEN: usize = 96;

/// The fixed header of a record: which staleness and right-of-association
/// attestations the body carries, and how long its free-form content is.
///
/// The tags are stored raw; a tag outside the closed set of validation
/// kinds is detected when an operation next decodes it.
#[derive(Clone, Copy, Debug, PartialEq, Eq, Structural)]
pub struct RecordHeader {
    /// Wire tag of the staleness attestation kind.
    pub staleness_validation: u16,
    /// Wire tag of the right-of-association attestation kind.
    pub right_of_association_validation: u16,
    /// Length in bytes of the free-form content, excluding proof segments.
    pub content_length: u32,
}

/// The 8 bytes under which a header is persisted.
pub open spec fn spec_header_bytes(h: RecordHeader) -> Seq<u8> {
    spec_u16_to_le_bytes(h.staleness_validation)
        + spec_u16_to_le_bytes(h.right_of_association_validation)
        + spec_u32_to_le_bytes(h.content_length)
}

/// The header read back from 8 persisted bytes.
pub open spec fn spec_parse_header(s: Seq<u8>) -> RecordHeader
    recommends
        s.len() == 8,
{
    RecordHeader {
        staleness_validation: spec_u16_from_le_bytes(s.subrange(0, 2)),
        right_of_association_validation: spec_u16_from_le_bytes(s.subrange(2, 4)),
        content_length: spec_u32_from_le_bytes(s.subrange(4, 8)),
    }
}

/// Encoding a header and decoding the bytes gives the header back, and
/// decoding any 8 bytes and re-encoding gives the bytes back: the codec is
/// a bijection.
pub proof fn lemma_header_round_trip(h: RecordHeader, s: Seq<u8>)
    requires
        s.len() == 8,
    ensures
        spec_header_bytes(h).len() == 8,
        spec_parse_header(spec_header_bytes(h)) == h,
        spec_header_bytes(spec_parse_header(s)) == s,
{
    lemma_auto_spec_u16_to_from_le_bytes();
    lemma_auto_spec_u32_to_from_le_bytes();
    let b = spec_header_bytes(h);
    assert(b.subrange(0, 2) =~= spec_u16_to_le_bytes(h.staleness_validation));
    assert(b.subrange(2, 4) =~= spec_u16_to_le_bytes(h.right_of_association_validation));
    assert(b.subrange(4, 8) =~= spec_u32_to_le_bytes(h.content_length));
    assert(spec_header_bytes(spec_parse_header(s)) =~= s);
}

impl RecordHeader {
    /// The header of a freshly created record: nothing attested yet, and a
    /// given content length.
    pub fn new(content_length: u32) -> (r: Self)
        ensures
            r.staleness_validation == 0,
            r.right_of_association_validation == 0,
            r.content_length == content_length,
    {
        RecordHeader {
            staleness_validation: 0,
            right_of_association_validation: 0,
            content_length,
        }
    }

    /// The 8 bytes under which this header is persisted.
    pub fn encode(&self) -> (r: Vec<u8>)
        ensures
            r@ == spec_header_bytes(*self),
            r@.len() == 8,
    {
        let mut out = u16_to_le_bytes(self.staleness_validation);
        let mut roa = u16_to_le_bytes(self.right_of_association_validation);
        let mut len = u32_to_le_bytes(self.content_length);
        out.append(&mut roa);
        out.append(&mut len);
        proof {
            lemma_auto_spec_u16_to_from_le_bytes();
            lemma_auto_spec_u32_to_from_le_bytes();
        }
        out
    }

    /// The header read back from its 8 persisted bytes.
    pub fn decode(bytes: &[u8]) -> (r: Self)
        requires
            bytes@.len() == 8,
        ensures
            r == spec_parse_header(bytes@),
    {
        let staleness_validation = u16_from_le_bytes(slice_subrange(bytes, 0, 2));
        let right_of_association_validation = u16_from_le_bytes(slice_subrange(bytes, 2, 4));
        let content_length = u32_from_le_bytes(slice_subrange(bytes, 4, 8));
        RecordHeader { staleness_validation, right_of_association_validation, content_length }
    }

    /// The header found in a full record buffer, after the registry's fixed
    /// prefix.
    pub fn from_buffer(buffer: &[u8]) -> (r: Self)
        requires
            buffer@.len() >= REGISTRY_PREFIX_LEN + RECORD_HEADER_LEN,
        ensures
            r == spec_parse_header(
                buffer@.subrange(
                    REGISTRY_PREFIX_LEN as int,
                    REGISTRY_PREFIX_LEN + RECORD_HEADER_LEN,
                ),
            ),
    {
        let window = slice_subrange(buffer, REGISTRY_PREFIX_LEN, REGISTRY_PREFIX_LEN + RECORD_HEADER_LEN);
        RecordHeader::decode(window)
    }
}

} // verus!
