//! Right-of-association attestation through an Ethereum-style signed
//! message.
//!
//! The verifier rebuilds the signing message from the record's content and
//! identity anchors, hashes it with Keccak-256, recovers a public key from
//! the 65-byte signature, derives the signer's address and compares it to
//! the expected one; on match the RoA segment becomes that 20-byte address.

use vstd::prelude::*;
use vstd::slice::slice_subrange;

use crate::buffer::{append_bytes, bytes_eq};
use crate::error::SnsRecordsError;
use crate::state::record_body::{
    spec_body_well_formed, spec_roa_end, spec_staleness_end, split_body,
};
use crate::state::record_header::RecordHeader;
use crate::state::validation::{spec_tag_known, spec_validation_tag, Validation};

verus! {

/// The inputs of an Ethereum attestation call.
pub struct Params {
    /// The validation kind the caller asks for.
    pub validation: Validation,
    /// The 65-byte signature: `r ‖ s` followed by a recovery marker.
    pub signature: Vec<u8>,
    /// The expected 20-byte Ethereum address of the signer.
    pub expected_pubkey: Vec<u8>,
}

/// The Keccak-256 digest of a byte sequence, as computed by
/// `solana_program::keccak`. The digest depends on the input bytes alone.
pub uninterp spec fn keccak256_of(data: Seq<u8>) -> Seq<u8>;

/// The base58 text of a 32-byte ledger key, as rendered by
/// `solana_program::pubkey::Pubkey`'s `Display`. The text depends on the
/// key bytes alone.
pub uninterp spec fn base58_of(data: Seq<u8>) -> Seq<u8>;

/// The public key that `solana_program::secp256k1_recover` recovers from a
/// 32-byte message hash, a recovery id and a 64-byte signature, or `None`
/// when recovery fails. Recovery is deterministic in its three inputs.
pub uninterp spec fn recovered_secp256k1_key(
    hash: Seq<u8>,
    recovery_id: u8,
    signature: Seq<u8>,
) -> Option<Seq<u8>>;

/// Relies on `solana_program::keccak::hashv`: the 32-byte Keccak-256
/// digest of the input.
#[verifier::external_body]
fn keccak256(data: &[u8]) -> (r: Vec<u8>)
    ensures
        r@ == keccak256_of(data@) && r@.len() == 32,
{
    solana_program::keccak::hashv(&[data]).to_bytes().to_vec()
}

/// Relies on `solana_program::pubkey::Pubkey`'s `Display`: the base58 text
/// of the 32 key bytes.
#[verifier::external_body]
fn base58_encode_key(key: &[u8]) -> (r: Vec<u8>)
    requires
        key@.len() == 32,
    ensures
        r@ == base58_of(key@),
{
    let mut bytes = [0u8; 32];
    bytes.copy_from_slice(key);
    solana_program::pubkey::Pubkey::from(bytes).to_string().into_bytes()
}

/// Relies on `hex::encode`: two lowercase hex digits for each input byte.
#[verifier::external_body]
fn hex_encode_bytes(data: &[u8]) -> (r: Vec<u8>)
    ensures
        r@ == spec_hex_lower(data@),
{
    hex::encode(data).into_bytes()
}

/// Relies on `solana_program::secp256k1_recover::secp256k1_recover`:
/// deterministic ECDSA public key recovery over secp256k1; a 64-byte
/// uncompressed public key on success, a failure on an invalid hash
/// length, recovery id or signature.
#[verifier::external_body]
fn secp256k1_recover_key(hash: &[u8], recovery_id: u8, signature: &[u8]) -> (r: Option<Vec<u8>>)
    ensures
        r is Some <==> recovered_secp256k1_key(hash@, recovery_id, signature@) is Some,
        r is Some ==> r->Some_0@ == recovered_secp256k1_key(hash@, recovery_id, signature@)->Some_0
            && r->Some_0@.len() == 64,
{
    match solana_program::secp256k1_recover::secp256k1_recover(hash, recovery_id, signature) {
        Ok(pubkey) => Some(pubkey.to_bytes().to_vec()),
        Err(_) => None,
    }
}

/// The lowercase hex digit of a value below 16, as an ASCII byte.
pub open spec fn spec_hex_digit(n: int) -> u8
    recommends
        0 <= n < 16,
{
    if n < 10 {
        (48 + n) as u8
    } else {
        (87 + n) as u8
    }
}

/// The lowercase hex text of a byte sequence: two digits per byte, in
/// order.
pub open spec fn spec_hex_lower(s: Seq<u8>) -> Seq<u8>
    decreases s.len(),
{
    if s.len() == 0 {
        Seq::empty()
    } else {
        seq![spec_hex_digit(s[0] as int / 16), spec_hex_digit(s[0] as int % 16)]
            + spec_hex_lower(s.drop_first())
    }
}

/// The decimal text of a number, as ASCII bytes without leading zeros.
pub open spec fn spec_decimal(n: nat) -> Seq<u8>
    decreases n,
{
    if n < 10 {
        seq![(48 + n) as u8]
    } else {
        spec_decimal(n / 10) + seq![(48 + n % 10) as u8]
    }
}

/// Renders a number as decimal ASCII text.
pub fn decimal_bytes(n: u64) -> (r: Vec<u8>)
    ensures
        r@ == spec_decimal(n as nat),
    decreases n,
{
    if n < 10 {
        let mut out: Vec<u8> = Vec::new();
        out.push((48 + n) as u8);
        proof {
            assert(out@ =~= spec_decimal(n as nat));
        }
        out
    } else {
        let mut out = decimal_bytes(n / 10);
        out.push((48 + n % 10) as u8);
        proof {
            assert(out@ =~= spec_decimal(n as nat));
        }
        out
    }
}

/// The fixed ASCII prefix of every signed message.
pub open spec fn spec_eth_prefix() -> Seq<u8> {
    seq![
        0x19u8, 0x45, 0x74, 0x68, 0x65, 0x72, 0x65, 0x75, 0x6d, 0x20, 0x53, 0x69, 0x67, 0x6e,
        0x65, 0x64, 0x20, 0x4d, 0x65, 0x73, 0x73, 0x61, 0x67, 0x65, 0x3a, 0x0a,
    ]
}

/// The fixed ASCII text between the content and the record key.
pub open spec fn spec_record_suffix() -> Seq<u8> {
    seq![0x0au8, 0x46, 0x6f, 0x72, 0x20, 0x72, 0x65, 0x63, 0x6f, 0x72, 0x64, 0x3a, 0x20]
}

/// The fixed ASCII text between the record key and the staleness anchor.
pub open spec fn spec_staleness_suffix() -> Seq<u8> {
    seq![
        0x0au8, 0x53, 0x74, 0x61, 0x6c, 0x65, 0x6e, 0x65, 0x73, 0x73, 0x20, 0x49, 0x44, 0x3a,
        0x20,
    ]
}

fn eth_prefix() -> (r: Vec<u8>)
    ensures
        r@ == spec_eth_prefix(),
{
    let mut v: Vec<u8> = Vec::new();
    v.push(0x19);
    v.push(0x45);
    v.push(0x74);
    v.push(0x68);
    v.push(0x65);
    v.push(0x72);
    v.push(0x65);
    v.push(0x75);
    v.push(0x6d);
    v.push(0x20);
    v.push(0x53);
    v.push(0x69);
    v.push(0x67);
    v.push(0x6e);
    v.push(0x65);
    v.push(0x64);
    v.push(0x20);
    v.push(0x4d);
    v.push(0x65);
    v.push(0x73);
    v.push(0x73);
    v.push(0x61);
    v.push(0x67);
    v.push(0x65);
    v.push(0x3a);
    v.push(0x0a);
    proof {
        assert(v@ =~= spec_eth_prefix());
    }
    v
}

fn record_suffix() -> (r: Vec<u8>)
    ensures
        r@ == spec_record_suffix(),
{
    let mut v: Vec<u8> = Vec::new();
    v.push(0x0a);
    v.push(0x46);
    v.push(0x6f);
    v.push(0x72);
    v.push(0x20);
    v.push(0x72);
    v.push(0x65);
    v.push(0x63);
    v.push(0x6f);
    v.push(0x72);
    v.push(0x64);
    v.push(0x3a);
    v.push(0x20);
    proof {
        assert(v@ =~= spec_record_suffix());
    }
    v
}

fn staleness_suffix() -> (r: Vec<u8>)
    ensures
        r@ == spec_staleness_suffix(),
{
    let mut v: Vec<u8> = Vec::new();
    v.push(0x0a);
    v.push(0x53);
    v.push(0x74);
    v.push(0x61);
    v.push(0x6c);
    v.push(0x65);
    v.push(0x6e);
    v.push(0x65);
    v.push(0x73);
    v.push(0x73);
    v.push(0x20);
    v.push(0x49);
    v.push(0x44);
    v.push(0x3a);
    v.push(0x20);
    proof {
        assert(v@ =~= spec_staleness_suffix());
    }
    v
}

/// The length whose decimal text stands after the fixed prefix: hex
/// content, the two textual keys and the two fixed separators.
pub open spec fn spec_signed_parts_len(
    content: Seq<u8>,
    record_key: Seq<u8>,
    staleness_id: Seq<u8>,
) -> nat {
    spec_hex_lower(content).len() + base58_of(record_key).len() + base58_of(staleness_id).len()
        + 28
}

/// The exact bytes signed by the attesting Ethereum key: fixed prefix,
/// decimal length, hex content, record-key separator, base58 record key,
/// staleness separator, base58 staleness anchor.
pub open spec fn spec_message_to_sign(
    content: Seq<u8>,
    record_key: Seq<u8>,
    staleness_id: Seq<u8>,
) -> Seq<u8> {
    spec_eth_prefix() + spec_decimal(spec_signed_parts_len(content, record_key, staleness_id))
        + spec_hex_lower(content) + spec_record_suffix() + base58_of(record_key)
        + spec_staleness_suffix() + base58_of(staleness_id)
}

/// Builds the message that the attesting key must sign.
///
/// Off-chain signing and on-chain verification must agree on these bytes
/// exactly; the decimal length, the lowercase hex and the base58 renditions
/// of the keys are all part of the signed contract.
pub fn message_to_sign(content: &[u8], record_key: &[u8], staleness_id: &[u8]) -> (r: Result<
    Vec<u8>,
    SnsRecordsError,
>)
    requires
        record_key@.len() == 32,
        staleness_id@.len() == 32,
    ensures
        match r {
            Ok(m) => m@ == spec_message_to_sign(content@, record_key@, staleness_id@)
                && spec_signed_parts_len(content@, record_key@, staleness_id@) <= u64::MAX,
            Err(e) => e == SnsRecordsError::NumericalOverflow && spec_signed_parts_len(
                content@,
                record_key@,
                staleness_id@,
            ) > u64::MAX,
        },
{
    let hex_content = hex_encode_bytes(content);
    let record_key_text = base58_encode_key(record_key);
    let staleness_id_text = base58_encode_key(staleness_id);

    let hex_len: u64 = hex_content.len() as u64;
    let record_key_len: u64 = record_key_text.len() as u64;
    let staleness_id_len: u64 = staleness_id_text.len() as u64;
    if hex_len > u64::MAX - 28 {
        return Err(SnsRecordsError::NumericalOverflow);
    }
    let with_separators = hex_len + 28;
    if record_key_len > u64::MAX - with_separators {
        return Err(SnsRecordsError::NumericalOverflow);
    }
    let with_record_key = with_separators + record_key_len;
    if staleness_id_len > u64::MAX - with_record_key {
        return Err(SnsRecordsError::NumericalOverflow);
    }
    let total = with_record_key + staleness_id_len;

    let prefix = eth_prefix();
    let length_text = decimal_bytes(total);
    let rec_sep = record_suffix();
    let stale_sep = staleness_suffix();

    let mut message: Vec<u8> = Vec::new();
    append_bytes(&mut message, prefix.as_slice());
    append_bytes(&mut message, length_text.as_slice());
    append_bytes(&mut message, hex_content.as_slice());
    append_bytes(&mut message, rec_sep.as_slice());
    append_bytes(&mut message, record_key_text.as_slice());
    append_bytes(&mut message, stale_sep.as_slice());
    append_bytes(&mut message, staleness_id_text.as_slice());
    proof {
        assert(message@ =~= spec_message_to_sign(content@, record_key@, staleness_id@));
    }
    Ok(message)
}

/// The address derived from a successful recovery over the message built
/// from `(content, record_key, staleness_id)` and the given signature: the
/// last 20 bytes of the Keccak-256 digest of the recovered key. A function
/// of those four inputs alone.
pub open spec fn spec_derived_address(
    content: Seq<u8>,
    record_key: Seq<u8>,
    staleness_id: Seq<u8>,
    signature: Seq<u8>,
) -> Option<Seq<u8>>
    recommends
        signature.len() >= 65,
{
    let message = spec_message_to_sign(content, record_key, staleness_id);
    match recovered_secp256k1_key(
        keccak256_of(message),
        (signature[64] - 27) as u8,
        signature.subrange(0, 64),
    ) {
        Option::Some(key) => Option::Some(keccak256_of(key).subrange(12, 32)),
        Option::None => Option::None,
    }
}

/// The derived address depends on the signed state only through the
/// recovered key: two signatures over the same `(content, record key,
/// staleness anchor)` that recover the same public key — as two
/// signatures by the same key do — derive the same address.
pub proof fn lemma_same_recovered_key_same_address(
    content: Seq<u8>,
    record_key: Seq<u8>,
    staleness_id: Seq<u8>,
    sig1: Seq<u8>,
    sig2: Seq<u8>,
)
    requires
        sig1.len() >= 65,
        sig2.len() >= 65,
        recovered_secp256k1_key(
            keccak256_of(spec_message_to_sign(content, record_key, staleness_id)),
            (sig1[64] - 27) as u8,
            sig1.subrange(0, 64),
        ) == recovered_secp256k1_key(
            keccak256_of(spec_message_to_sign(content, record_key, staleness_id)),
            (sig2[64] - 27) as u8,
            sig2.subrange(0, 64),
        ),
    ensures
        spec_derived_address(content, record_key, staleness_id, sig1) == spec_derived_address(
            content,
            record_key,
            staleness_id,
            sig2,
        ),
{
}

/// The Ethereum attestation transition over a record's header and body.
///
/// Read left to right, the conditions fail in this order: an unknown
/// header tag, a body shorter than its declared segments, a staleness
/// anchor that is not 32 bytes, a message length beyond 64 bits, a
/// truncated signature, a recovery marker outside `{27, 28}`, a failed key
/// recovery, and a derived address differing from the expected one. On
/// success the RoA segment becomes the expected 20-byte address and the
/// RoA tag becomes `Ethereum`.
pub open spec fn spec_validate_ethereum_signature(
    h: RecordHeader,
    body: Seq<u8>,
    record_key: Seq<u8>,
    signature: Seq<u8>,
    expected_pubkey: Seq<u8>,
) -> Result<(RecordHeader, Seq<u8>), SnsRecordsError> {
    if !(spec_tag_known(h.staleness_validation) && spec_tag_known(
        h.right_of_association_validation,
    )) {
        Err(SnsRecordsError::DataTypeMismatch)
    } else if body.len() < spec_roa_end(h) {
        Err(SnsRecordsError::OutOfBound)
    } else if spec_staleness_end(h) != 32 {
        Err(SnsRecordsError::OutOfBound)
    } else {
        let staleness_id = body.subrange(0, 32);
        let content = body.subrange(spec_roa_end(h), body.len() as int);
        if spec_signed_parts_len(content, record_key, staleness_id) > u64::MAX {
            Err(SnsRecordsError::NumericalOverflow)
        } else if signature.len() < 65 {
            Err(SnsRecordsError::OutOfBound)
        } else if signature[64] != 27 && signature[64] != 28 {
            Err(SnsRecordsError::NumericalOverflow)
        } else {
            match spec_derived_address(content, record_key, staleness_id, signature) {
                Option::None => Err(SnsRecordsError::Secp256k1Recover),
                Option::Some(address) => {
                    if address != expected_pubkey {
                        Err(SnsRecordsError::EthPubkeyMismatch)
                    } else {
                        Ok(
                            (
                                RecordHeader {
                                    staleness_validation: h.staleness_validation,
                                    right_of_association_validation: spec_validation_tag(
                                        Validation::Ethereum,
                                    ),
                                    content_length: h.content_length,
                                },
                                staleness_id + expected_pubkey + content,
                            ),
                        )
                    }
                },
            }
        }
    }
}

/// Verifies an Ethereum attestation and rewrites the RoA segment.
///
/// The signed message is rebuilt from the record's content, the record's
/// own key and the stored staleness anchor; the signer's address is
/// derived from the recovered public key and must equal `expected_pubkey`,
/// else the call fails with `EthPubkeyMismatch` and the record is left
/// unchanged. A well-formed record stays well-formed.
pub fn validate_ethereum_signature(
    header: &RecordHeader,
    body: &[u8],
    record_key: &[u8],
    signature: &[u8],
    expected_pubkey: &[u8],
) -> (r: Result<(RecordHeader, Vec<u8>), SnsRecordsError>)
    requires
        record_key@.len() == 32,
    ensures
        ({
            let s = spec_validate_ethereum_signature(
                *header,
                body@,
                record_key@,
                signature@,
                expected_pubkey@,
            );
            match r {
                Ok(p) => s is Ok && p.0 == s->Ok_0.0 && p.1@ == s->Ok_0.1,
                Err(e) => s is Err && e == s->Err_0,
            }
        }),
        r is Ok && spec_body_well_formed(*header, body@) ==> spec_body_well_formed(
            r->Ok_0.0,
            r->Ok_0.1@,
        ),
{
    let parts = split_body(header, body)?;
    if parts.0.len() != 32 {
        return Err(SnsRecordsError::OutOfBound);
    }
    let message = message_to_sign(parts.2.as_slice(), record_key, parts.0.as_slice())?;
    if signature.len() < 65 {
        return Err(SnsRecordsError::OutOfBound);
    }
    let recovery_marker = signature[64];
    if recovery_marker != 27 && recovery_marker != 28 {
        return Err(SnsRecordsError::NumericalOverflow);
    }
    let recovery_id = recovery_marker - 27;
    let message_hash = keccak256(message.as_slice());
    let signature_rs = slice_subrange(signature, 0, 64);
    let recovered = match secp256k1_recover_key(
        message_hash.as_slice(),
        recovery_id,
        signature_rs,
    ) {
        Some(key) => key,
        None => {
            return Err(SnsRecordsError::Secp256k1Recover);
        },
    };
    let key_hash = keccak256(recovered.as_slice());
    let derived_address = slice_subrange(key_hash.as_slice(), 12, 32);
    if !bytes_eq(derived_address, expected_pubkey) {
        return Err(SnsRecordsError::EthPubkeyMismatch);
    }
    let new_header = RecordHeader {
        staleness_validation: header.staleness_validation,
        right_of_association_validation: Validation::Ethereum.tag(),
        content_length: header.content_length,
    };
    let mut new_body: Vec<u8> = Vec::new();
    append_bytes(&mut new_body, parts.0.as_slice());
    append_bytes(&mut new_body, expected_pubkey);
    append_bytes(&mut new_body, parts.2.as_slice());
    proof {
        assert(new_body@ =~= body@.subrange(0, 32) + expected_pubkey@ + body@.subrange(
            spec_roa_end(*header),
            body@.len() as int,
        ));
    }
    Ok((new_header, new_body))
}

} // verus!
