//! Overwriting a record's content.
//!
//! An edit writes a fresh header and the new content — the same bytes
//! that posting the record anew would write (see
//! `allocate_and_post_record::initial_record_data`): overwriting content
//! drops both attestations, since the proofs no longer speak of the bytes
//! stored.

use vstd::prelude::*;

verus! {

/// The record's name and its replacement content.
pub struct Params {
    /// The record's name, from which its storage key is derived.
    pub record: String,
    /// The content that replaces what the record holds.
    pub content: Vec<u8>,
}

} // verus!
