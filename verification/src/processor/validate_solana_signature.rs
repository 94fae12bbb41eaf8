//! Staleness and RoA attestation through a co-signing ledger key.
//!
//! One entry point of the program serves two transitions, selected by a
//! flag: attesting freshness (staleness) with the domain owner's
//! co-signature, or confirming a previously written RoA candidate.

use vstd::bytes::{spec_u16_to_le_bytes, u16_to_le_bytes};
use vstd::prelude::*;
use vstd::slice::{slice_subrange, slice_to_vec};

use crate::buffer::{append_bytes, bytes_eq};
use crate::error::SnsRecordsError;
use crate::state::record_body::{spec_body_well_formed, spec_roa_end, split_body};
use crate::state::record_header::RecordHeader;
use crate::state::validation::{
    get_validation_length, spec_seg_len, spec_tag_known, spec_validation_tag, Validation,
};

verus! {

/// Whether the entry point attests staleness (`true`) or confirms a
/// pending RoA candidate (`false`).
pub struct Params {
    /// Selects the staleness transition over the RoA confirmation.
    pub staleness: bool,
}

/// The staleness transition for a plainly owned domain: the new staleness
/// segment is the verifying signer's own 32-byte key, the RoA attestation
/// is reset and its segment dropped, and only the content survives.
pub open spec fn spec_validate_staleness_solana(
    h: RecordHeader,
    body: Seq<u8>,
    verifier: Seq<u8>,
) -> Result<(RecordHeader, Seq<u8>), SnsRecordsError> {
    if !(spec_tag_known(h.staleness_validation) && spec_tag_known(
        h.right_of_association_validation,
    )) {
        Err(SnsRecordsError::DataTypeMismatch)
    } else if body.len() < spec_roa_end(h) {
        Err(SnsRecordsError::OutOfBound)
    } else {
        Ok(
            (
                RecordHeader {
                    staleness_validation: spec_validation_tag(Validation::Solana),
                    right_of_association_validation: spec_validation_tag(Validation::Unvalidated),
                    content_length: h.content_length,
                },
                verifier + body.subrange(spec_roa_end(h), body.len() as int),
            ),
        )
    }
}

/// The staleness transition for a bridge-controlled domain: the new
/// 34-byte staleness segment is a little-endian chain identifier followed
/// by the foreign owner address read from the cross-chain ownership
/// record; the RoA attestation is reset as above.
pub open spec fn spec_validate_staleness_xchain(
    h: RecordHeader,
    body: Seq<u8>,
    owner_chain: u16,
    owner_address: Seq<u8>,
) -> Result<(RecordHeader, Seq<u8>), SnsRecordsError> {
    if !(spec_tag_known(h.staleness_validation) && spec_tag_known(
        h.right_of_association_validation,
    )) {
        Err(SnsRecordsError::DataTypeMismatch)
    } else if body.len() < spec_roa_end(h) {
        Err(SnsRecordsError::OutOfBound)
    } else {
        Ok(
            (
                RecordHeader {
                    staleness_validation: spec_validation_tag(Validation::XChain),
                    right_of_association_validation: spec_validation_tag(Validation::Unvalidated),
                    content_length: h.content_length,
                },
                spec_u16_to_le_bytes(owner_chain) + owner_address + body.subrange(
                    spec_roa_end(h),
                    body.len() as int,
                ),
            ),
        )
    }
}

/// The RoA confirmation: the stored 32-byte candidate right after the
/// staleness segment must equal the verifying signer's key; on match the
/// RoA attestation becomes `Solana` and the body stays unchanged.
pub open spec fn spec_validate_roa_solana(
    h: RecordHeader,
    body: Seq<u8>,
    verifier: Seq<u8>,
) -> Result<(RecordHeader, Seq<u8>), SnsRecordsError> {
    if !spec_tag_known(h.staleness_validation) {
        Err(SnsRecordsError::DataTypeMismatch)
    } else if body.len() < spec_seg_len(h.staleness_validation) + 32 {
        Err(SnsRecordsError::OutOfBound)
    } else if body.subrange(
        spec_seg_len(h.staleness_validation) as int,
        spec_seg_len(h.staleness_validation) + 32 as int,
    ) != verifier {
        Err(SnsRecordsError::InvalidVerifier)
    } else {
        Ok(
            (
                RecordHeader {
                    staleness_validation: h.staleness_validation,
                    right_of_association_validation: spec_validation_tag(Validation::Solana),
                    content_length: h.content_length,
                },
                body,
            ),
        )
    }
}

/// Attests staleness with the verifying signer's own key.
///
/// On success the staleness tag is `Solana`, its segment is the verifier's
/// key, the RoA tag is reset to `Unvalidated` and any stored RoA segment
/// is dropped; content is preserved. A well-formed record stays
/// well-formed, so the segment-length invariant survives the transition.
pub fn validate_staleness_solana(header: &RecordHeader, body: &[u8], verifier: &[u8]) -> (r:
    Result<(RecordHeader, Vec<u8>), SnsRecordsError>)
    requires
        verifier@.len() == 32,
    ensures
        ({
            let s = spec_validate_staleness_solana(*header, body@, verifier@);
            match r {
                Ok(p) => s is Ok && p.0 == s->Ok_0.0 && p.1@ == s->Ok_0.1,
                Err(e) => s is Err && e == s->Err_0,
            }
        }),
        r is Ok ==> r->Ok_0.0.right_of_association_validation == spec_validation_tag(
            Validation::Unvalidated,
        ),
        r is Ok && spec_body_well_formed(*header, body@) ==> spec_body_well_formed(
            r->Ok_0.0,
            r->Ok_0.1@,
        ),
{
    let parts = split_body(header, body)?;
    let new_header = RecordHeader {
        staleness_validation: Validation::Solana.tag(),
        right_of_association_validation: Validation::Unvalidated.tag(),
        content_length: header.content_length,
    };
    let mut new_body: Vec<u8> = Vec::new();
    append_bytes(&mut new_body, verifier);
    append_bytes(&mut new_body, parts.2.as_slice());
    proof {
        assert(new_body@ =~= verifier@ + body@.subrange(spec_roa_end(*header), body@.len() as int));
    }
    Ok((new_header, new_body))
}

/// Attests staleness for a bridge-controlled domain owner.
///
/// On success the staleness tag is `XChain` and its 34-byte segment is the
/// little-endian chain identifier followed by the 32-byte foreign owner
/// address; the RoA attestation is reset exactly as in the plain case.
pub fn validate_staleness_xchain(
    header: &RecordHeader,
    body: &[u8],
    owner_chain: u16,
    owner_address: &[u8],
) -> (r: Result<(RecordHeader, Vec<u8>), SnsRecordsError>)
    requires
        owner_address@.len() == 32,
    ensures
        ({
            let s = spec_validate_staleness_xchain(*header, body@, owner_chain, owner_address@);
            match r {
                Ok(p) => s is Ok && p.0 == s->Ok_0.0 && p.1@ == s->Ok_0.1,
                Err(e) => s is Err && e == s->Err_0,
            }
        }),
        r is Ok ==> r->Ok_0.0.right_of_association_validation == spec_validation_tag(
            Validation::Unvalidated,
        ),
        r is Ok && spec_body_well_formed(*header, body@) ==> spec_body_well_formed(
            r->Ok_0.0,
            r->Ok_0.1@,
        ),
{
    let parts = split_body(header, body)?;
    let new_header = RecordHeader {
        staleness_validation: Validation::XChain.tag(),
        right_of_association_validation: Validation::Unvalidated.tag(),
        content_length: header.content_length,
    };
    let chain_bytes = u16_to_le_bytes(owner_chain);
    let mut new_body: Vec<u8> = Vec::new();
    append_bytes(&mut new_body, chain_bytes.as_slice());
    append_bytes(&mut new_body, owner_address);
    append_bytes(&mut new_body, parts.2.as_slice());
    proof {
        assert(new_body@ =~= spec_u16_to_le_bytes(owner_chain) + owner_address@ + body@.subrange(
            spec_roa_end(*header),
            body@.len() as int,
        ));
        vstd::bytes::lemma_auto_spec_u16_to_from_le_bytes();
    }
    Ok((new_header, new_body))
}

/// Confirms a pending RoA candidate with the verifying signer's key.
///
/// The 32 bytes stored right after the staleness segment must equal the
/// verifier's key, else the call fails with `InvalidVerifier` and nothing
/// changes. On match the RoA tag becomes `Solana`; the body is returned
/// unchanged, so a record whose stored RoA segment was a 32-byte candidate
/// keeps the segment-length invariant.
pub fn validate_roa_solana(header: &RecordHeader, body: &[u8], verifier: &[u8]) -> (r: Result<
    (RecordHeader, Vec<u8>),
    SnsRecordsError,
>)
    requires
        verifier@.len() == 32,
    ensures
        ({
            let s = spec_validate_roa_solana(*header, body@, verifier@);
            match r {
                Ok(p) => s is Ok && p.0 == s->Ok_0.0 && p.1@ == s->Ok_0.1,
                Err(e) => s is Err && e == s->Err_0,
            }
        }),
        r is Ok && spec_body_well_formed(*header, body@) && spec_seg_len(
            header.right_of_association_validation,
        ) == 32 ==> spec_body_well_formed(r->Ok_0.0, r->Ok_0.1@),
{
    let staleness_kind = Validation::try_from_tag(header.staleness_validation)?;
    let staleness_len = get_validation_length(staleness_kind) as usize;
    if body.len() < staleness_len + 32 {
        return Err(SnsRecordsError::OutOfBound);
    }
    let candidate = slice_subrange(body, staleness_len, staleness_len + 32);
    if !bytes_eq(candidate, verifier) {
        return Err(SnsRecordsError::InvalidVerifier);
    }
    let new_header = RecordHeader {
        staleness_validation: header.staleness_validation,
        right_of_association_validation: Validation::Solana.tag(),
        content_length: header.content_length,
    };
    Ok((new_header, slice_to_vec(body)))
}

} // verus!
