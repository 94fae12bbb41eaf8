//! The Ethereum attestation path, exercised with real signatures.

use sns_records::error::SnsRecordsError;
use sns_records::processor::validate_ethereum_signature::{
    message_to_sign, validate_ethereum_signature,
};
use sns_records::state::record_header::RecordHeader;

fn header(staleness: u16, roa: u16, content_length: u32) -> RecordHeader {
    RecordHeader {
        staleness_validation: staleness,
        right_of_association_validation: roa,
        content_length,
    }
}

/// Signs the record's message with the given secret key and returns the
/// 65-byte signature and the signer's 20-byte derived address.
fn sign_record(
    content: &[u8],
    record_key: &[u8; 32],
    staleness_id: &[u8; 32],
    secret: &[u8; 32],
) -> (Vec<u8>, Vec<u8>) {
    let message = message_to_sign(content, record_key, staleness_id).unwrap();
    let hash = solana_program::keccak::hash(&message).0;
    let secret_key = libsecp256k1::SecretKey::parse(secret).unwrap();
    let (signature, recovery_id) = libsecp256k1::sign(
        &libsecp256k1::Message::parse(&hash),
        &secret_key,
    );
    let mut sig65 = signature.serialize().to_vec();
    sig65.push(recovery_id.serialize() + 27);

    let public_key = libsecp256k1::PublicKey::from_secret_key(&secret_key);
    let uncompressed = public_key.serialize();
    let address = solana_program::keccak::hash(&uncompressed[1..65]).0[12..32].to_vec();
    (sig65, address)
}

#[test]
fn message_bytes_are_exact() {
    let message = message_to_sign(&[0xab], &[0u8; 32], &[0u8; 32]).unwrap();
    let mut expected = vec![0x19u8];
    expected.extend_from_slice(b"Ethereum Signed Message:\n");
    expected.extend_from_slice(b"94ab");
    expected.extend_from_slice(b"\nFor record: 11111111111111111111111111111111");
    expected.extend_from_slice(b"\nStaleness ID: 11111111111111111111111111111111");
    assert_eq!(message, expected);
}

#[test]
fn message_renders_longer_lengths_in_decimal() {
    let content = [0u8; 8];
    let message = message_to_sign(&content, &[0u8; 32], &[0u8; 32]).unwrap();
    // 16 hex digits + 2 * 32 key characters + 28 separator bytes = 108.
    let mut expected = vec![0x19u8];
    expected.extend_from_slice(b"Ethereum Signed Message:\n");
    expected.extend_from_slice(b"108");
    expected.extend_from_slice(b"0000000000000000");
    expected.extend_from_slice(b"\nFor record: 11111111111111111111111111111111");
    expected.extend_from_slice(b"\nStaleness ID: 11111111111111111111111111111111");
    assert_eq!(message, expected);
}

#[test]
fn valid_signature_rewrites_roa_segment() {
    let content = b"hello";
    let record_key = [1u8; 32];
    let staleness_id = [2u8; 32];
    let h = header(1, 0, 5);
    let mut body = staleness_id.to_vec();
    body.extend_from_slice(content);

    let (sig65, address) = sign_record(content, &record_key, &staleness_id, &[0x42u8; 32]);
    let (h1, body1) =
        validate_ethereum_signature(&h, &body, &record_key, &sig65, &address).unwrap();
    assert_eq!(h1.right_of_association_validation, 2);
    assert_eq!(h1.staleness_validation, 1);
    assert_eq!(h1.content_length, 5);
    let mut expected = staleness_id.to_vec();
    expected.extend_from_slice(&address);
    expected.extend_from_slice(content);
    assert_eq!(body1, expected);
    assert_eq!(body1.len(), 32 + 20 + 5);
}

#[test]
fn signing_twice_verifies_to_the_same_address() {
    let content = b"same content";
    let record_key = [3u8; 32];
    let staleness_id = [4u8; 32];
    let h = header(1, 0, 12);
    let mut body = staleness_id.to_vec();
    body.extend_from_slice(content);

    let (sig_a, addr_a) = sign_record(content, &record_key, &staleness_id, &[0x51u8; 32]);
    let (sig_b, addr_b) = sign_record(content, &record_key, &staleness_id, &[0x51u8; 32]);
    assert_eq!(addr_a, addr_b);

    let first = validate_ethereum_signature(&h, &body, &record_key, &sig_a, &addr_a).unwrap();
    let second = validate_ethereum_signature(&h, &body, &record_key, &sig_b, &addr_b).unwrap();
    assert_eq!(first.0, second.0);
    assert_eq!(first.1, second.1);
}

#[test]
fn wrong_expected_address_fails_without_mutation() {
    let content = b"hello";
    let record_key = [1u8; 32];
    let staleness_id = [2u8; 32];
    let h = header(1, 0, 5);
    let mut body = staleness_id.to_vec();
    body.extend_from_slice(content);
    let before = body.clone();

    let (sig65, mut address) = sign_record(content, &record_key, &staleness_id, &[0x42u8; 32]);
    address[0] ^= 1;
    assert_eq!(
        validate_ethereum_signature(&h, &body, &record_key, &sig65, &address),
        Err(SnsRecordsError::EthPubkeyMismatch)
    );
    assert_eq!(body, before);
}

#[test]
fn tampered_content_fails_with_address_mismatch() {
    let content = b"hello";
    let record_key = [1u8; 32];
    let staleness_id = [2u8; 32];
    let h = header(1, 0, 5);

    let (sig65, address) = sign_record(content, &record_key, &staleness_id, &[0x42u8; 32]);

    let mut tampered_body = staleness_id.to_vec();
    tampered_body.extend_from_slice(b"hellp");
    assert_eq!(
        validate_ethereum_signature(&h, &tampered_body, &record_key, &sig65, &address),
        Err(SnsRecordsError::EthPubkeyMismatch)
    );
}

#[test]
fn tampered_record_key_fails_with_address_mismatch() {
    let content = b"hello";
    let record_key = [1u8; 32];
    let staleness_id = [2u8; 32];
    let h = header(1, 0, 5);
    let mut body = staleness_id.to_vec();
    body.extend_from_slice(content);

    let (sig65, address) = sign_record(content, &record_key, &staleness_id, &[0x42u8; 32]);
    let mut other_key = record_key;
    other_key[31] ^= 0x80;
    assert_eq!(
        validate_ethereum_signature(&h, &body, &other_key, &sig65, &address),
        Err(SnsRecordsError::EthPubkeyMismatch)
    );
}

#[test]
fn tampered_staleness_anchor_fails_with_address_mismatch() {
    let content = b"hello";
    let record_key = [1u8; 32];
    let staleness_id = [2u8; 32];
    let h = header(1, 0, 5);

    let (sig65, address) = sign_record(content, &record_key, &staleness_id, &[0x42u8; 32]);

    let mut tampered_anchor = staleness_id;
    tampered_anchor[7] ^= 4;
    let mut body = tampered_anchor.to_vec();
    body.extend_from_slice(content);
    assert_eq!(
        validate_ethereum_signature(&h, &body, &record_key, &sig65, &address),
        Err(SnsRecordsError::EthPubkeyMismatch)
    );
}

#[test]
fn recovery_marker_outside_27_28_overflows() {
    let content = b"hello";
    let record_key = [1u8; 32];
    let staleness_id = [2u8; 32];
    let h = header(1, 0, 5);
    let mut body = staleness_id.to_vec();
    body.extend_from_slice(content);

    let (mut sig65, address) = sign_record(content, &record_key, &staleness_id, &[0x42u8; 32]);
    sig65[64] = 26;
    assert_eq!(
        validate_ethereum_signature(&h, &body, &record_key, &sig65, &address),
        Err(SnsRecordsError::NumericalOverflow)
    );
    sig65[64] = 29;
    assert_eq!(
        validate_ethereum_signature(&h, &body, &record_key, &sig65, &address),
        Err(SnsRecordsError::NumericalOverflow)
    );
}

#[test]
fn truncated_signature_is_out_of_bound() {
    let record_key = [1u8; 32];
    let staleness_id = [2u8; 32];
    let h = header(1, 0, 5);
    let mut body = staleness_id.to_vec();
    body.extend_from_slice(b"hello");

    assert_eq!(
        validate_ethereum_signature(&h, &body, &record_key, &[27u8; 10], &[0u8; 20]),
        Err(SnsRecordsError::OutOfBound)
    );
}

#[test]
fn unrecoverable_signature_fails_recovery() {
    let record_key = [1u8; 32];
    let staleness_id = [2u8; 32];
    let h = header(1, 0, 5);
    let mut body = staleness_id.to_vec();
    body.extend_from_slice(b"hello");

    let mut sig65 = vec![0u8; 64];
    sig65.push(27);
    assert_eq!(
        validate_ethereum_signature(&h, &body, &record_key, &sig65, &[0u8; 20]),
        Err(SnsRecordsError::Secp256k1Recover)
    );
}

#[test]
fn absent_staleness_anchor_is_out_of_bound() {
    let record_key = [1u8; 32];
    let h = header(0, 0, 5);
    let body = b"hello".to_vec();

    let mut sig65 = vec![1u8; 64];
    sig65.push(27);
    assert_eq!(
        validate_ethereum_signature(&h, &body, &record_key, &sig65, &[0u8; 20]),
        Err(SnsRecordsError::OutOfBound)
    );
}
