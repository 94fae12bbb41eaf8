//! Layout and transition behavior over concrete records.

use sns_records::error::SnsRecordsError;
use sns_records::instruction::ProgramInstruction;
use sns_records::processor::allocate_and_post_record::initial_record_data;
use sns_records::processor::allocate_record::record_space;
use sns_records::processor::unverify_roa::unverify_roa;
use sns_records::processor::validate_solana_signature::{
    validate_roa_solana, validate_staleness_solana, validate_staleness_xchain,
};
use sns_records::processor::write_roa::write_roa;
use sns_records::rewrite::{assemble_record_data, plan_rewrite};
use sns_records::state::record_body::{join_body, split_body};
use sns_records::state::record_header::RecordHeader;
use sns_records::state::validation::{get_validation_length, Validation};

fn header(staleness: u16, roa: u16, content_length: u32) -> RecordHeader {
    RecordHeader {
        staleness_validation: staleness,
        right_of_association_validation: roa,
        content_length,
    }
}

#[test]
fn header_new_encodes_to_fixed_bytes() {
    let h = RecordHeader::new(5);
    let bytes = h.encode();
    assert_eq!(bytes, vec![0, 0, 0, 0, 5, 0, 0, 0]);
    let back = RecordHeader::decode(&bytes);
    assert_eq!(back, h);
}

#[test]
fn header_codec_round_trips() {
    let cases = [
        header(0, 0, 0),
        header(1, 0, 5),
        header(4, 2, 0x01020304),
        header(0xabcd, 0x1234, u32::MAX),
    ];
    for h in cases {
        let bytes = h.encode();
        assert_eq!(bytes.len(), 8);
        assert_eq!(RecordHeader::decode(&bytes), h);
    }
    let h = header(1, 2, 0x01020304);
    assert_eq!(h.encode(), vec![1, 0, 2, 0, 4, 3, 2, 1]);
}

#[test]
fn header_read_after_registry_prefix() {
    let h = header(1, 3, 7);
    let mut buffer = vec![0xeeu8; 96];
    buffer.extend_from_slice(&h.encode());
    buffer.extend_from_slice(&[0xau8; 39]);
    assert_eq!(RecordHeader::from_buffer(&buffer), h);
}

#[test]
fn validation_lengths_are_the_fixed_table() {
    assert_eq!(get_validation_length(Validation::Unvalidated), 0);
    assert_eq!(get_validation_length(Validation::Solana), 32);
    assert_eq!(get_validation_length(Validation::Ethereum), 20);
    assert_eq!(get_validation_length(Validation::UnverifiedSolana), 32);
    assert_eq!(get_validation_length(Validation::XChain), 34);
}

#[test]
fn validation_tag_round_trips_and_rejects_unknown() {
    for v in [
        Validation::Unvalidated,
        Validation::Solana,
        Validation::Ethereum,
        Validation::UnverifiedSolana,
        Validation::XChain,
    ] {
        assert_eq!(Validation::try_from_tag(v.tag()), Ok(v));
    }
    assert_eq!(
        Validation::try_from_tag(5),
        Err(SnsRecordsError::DataTypeMismatch)
    );
    assert_eq!(
        Validation::try_from_tag(u16::MAX),
        Err(SnsRecordsError::DataTypeMismatch)
    );
}

#[test]
fn split_solana_staleness_and_content() {
    let h = header(1, 0, 5);
    let mut body = vec![9u8; 32];
    body.extend_from_slice(&[1, 2, 3, 4, 5]);
    assert_eq!(body.len(), 37);
    let (staleness, roa, content) = split_body(&h, &body).unwrap();
    assert_eq!(staleness, vec![9u8; 32]);
    assert_eq!(roa, Vec::<u8>::new());
    assert_eq!(content, vec![1, 2, 3, 4, 5]);
    assert_eq!(
        staleness.len() + roa.len() + content.len(),
        h.content_length as usize + 32
    );
}

#[test]
fn split_rejects_short_body_and_unknown_tag() {
    let h = header(1, 0, 5);
    assert_eq!(
        split_body(&h, &[0u8; 10]),
        Err(SnsRecordsError::OutOfBound)
    );
    let bad = header(9, 0, 5);
    assert_eq!(
        split_body(&bad, &[0u8; 64]),
        Err(SnsRecordsError::DataTypeMismatch)
    );
}

#[test]
fn join_concatenates_in_order() {
    let body = join_body(&[1, 2], &[3], &[4, 5, 6]);
    assert_eq!(body, vec![1, 2, 3, 4, 5, 6]);
}

#[test]
fn write_roa_then_confirm_with_matching_signer() {
    let h = header(1, 0, 5);
    let mut body = vec![9u8; 32];
    body.extend_from_slice(&[1, 2, 3, 4, 5]);
    let candidate = [7u8; 32];

    let (h1, body1) = write_roa(&h, &body, &candidate).unwrap();
    assert_eq!(h1.right_of_association_validation, 3);
    assert_eq!(body1.len(), 32 + 32 + 5);
    let mut expected = vec![9u8; 32];
    expected.extend_from_slice(&candidate);
    expected.extend_from_slice(&[1, 2, 3, 4, 5]);
    assert_eq!(body1, expected);

    let (h2, body2) = validate_roa_solana(&h1, &body1, &candidate).unwrap();
    assert_eq!(h2.right_of_association_validation, 1);
    assert_eq!(h2.staleness_validation, 1);
    assert_eq!(body2, body1);
}

#[test]
fn confirm_with_other_signer_fails_and_changes_nothing() {
    let h = header(1, 3, 5);
    let mut body = vec![9u8; 32];
    body.extend_from_slice(&[7u8; 32]);
    body.extend_from_slice(&[1, 2, 3, 4, 5]);
    let before = body.clone();
    let other = [8u8; 32];
    assert_eq!(
        validate_roa_solana(&h, &body, &other),
        Err(SnsRecordsError::InvalidVerifier)
    );
    assert_eq!(body, before);
}

#[test]
fn staleness_validation_resets_roa() {
    let h = header(1, 3, 5);
    let mut body = vec![9u8; 32];
    body.extend_from_slice(&[7u8; 32]);
    body.extend_from_slice(&[1, 2, 3, 4, 5]);
    let verifier = [8u8; 32];

    let (h1, body1) = validate_staleness_solana(&h, &body, &verifier).unwrap();
    assert_eq!(h1.staleness_validation, 1);
    assert_eq!(h1.right_of_association_validation, 0);
    assert_eq!(h1.content_length, 5);
    let mut expected = verifier.to_vec();
    expected.extend_from_slice(&[1, 2, 3, 4, 5]);
    assert_eq!(body1, expected);
    assert_eq!(body1.len(), 32 + 0 + 5);
}

#[test]
fn staleness_validation_xchain_writes_chain_and_address() {
    let h = header(1, 2, 5);
    let mut body = vec![9u8; 32];
    body.extend_from_slice(&[0xaau8; 20]);
    body.extend_from_slice(&[1, 2, 3, 4, 5]);

    let foreign = [4u8; 32];
    let (h1, body1) = validate_staleness_xchain(&h, &body, 0x0203, &foreign).unwrap();
    assert_eq!(h1.staleness_validation, 4);
    assert_eq!(h1.right_of_association_validation, 0);
    let mut expected = vec![0x03u8, 0x02];
    expected.extend_from_slice(&foreign);
    expected.extend_from_slice(&[1, 2, 3, 4, 5]);
    assert_eq!(body1, expected);
    assert_eq!(body1.len(), 34 + 0 + 5);
}

#[test]
fn unverify_roa_shrinks_ethereum_segment() {
    let h = header(1, 2, 5);
    let mut body = vec![9u8; 32];
    body.extend_from_slice(&[0xaau8; 20]);
    body.extend_from_slice(&[1, 2, 3, 4, 5]);
    assert_eq!(body.len(), 57);

    let (h1, body1) = unverify_roa(&h, &body).unwrap();
    assert_eq!(h1.right_of_association_validation, 0);
    assert_eq!(h1.staleness_validation, 1);
    assert_eq!(body1.len(), body.len() - 20);
    let mut expected = vec![9u8; 32];
    expected.extend_from_slice(&[1, 2, 3, 4, 5]);
    assert_eq!(body1, expected);
}

#[test]
fn record_space_adds_header_length() {
    assert_eq!(record_space(5), Ok(13));
    assert_eq!(record_space(0), Ok(8));
    assert_eq!(record_space(u32::MAX - 8), Ok(u32::MAX));
    assert_eq!(
        record_space(u32::MAX - 7),
        Err(SnsRecordsError::NumericalOverflow)
    );
}

#[test]
fn initial_record_data_prefixes_fresh_header() {
    let data = initial_record_data(&[1, 2, 3]);
    assert_eq!(data, vec![0, 0, 0, 0, 3, 0, 0, 0, 1, 2, 3]);
}

#[test]
fn plan_rewrite_resizes_only_on_length_change() {
    let h = header(1, 0, 5);
    let body = vec![5u8; 37];

    let same = plan_rewrite(37, &h, &body).unwrap();
    assert_eq!(same.resize_to, None);
    let mut expected = h.encode();
    expected.extend_from_slice(&body);
    assert_eq!(same.data, expected);

    let grown = plan_rewrite(5, &h, &body).unwrap();
    assert_eq!(grown.resize_to, Some(45));
    assert_eq!(grown.data, expected);

    assert_eq!(assemble_record_data(&h, &body), expected);
}

#[test]
fn instruction_tags_round_trip() {
    let all = [
        ProgramInstruction::AllocateRecord,
        ProgramInstruction::AllocateAndPostRecord,
        ProgramInstruction::EditRecord,
        ProgramInstruction::ValidateSolanaSignature,
        ProgramInstruction::ValidateEthereumSignature,
        ProgramInstruction::DeleteRecord,
        ProgramInstruction::WriteRoa,
        ProgramInstruction::UnverifyRoa,
    ];
    for (i, instruction) in all.iter().enumerate() {
        assert_eq!(instruction.tag() as usize, i);
        assert_eq!(ProgramInstruction::from_tag(i as u8), Some(*instruction));
    }
    assert_eq!(ProgramInstruction::from_tag(8), None);
    assert_eq!(ProgramInstruction::from_tag(u8::MAX), None);
}

#[test]
fn error_codes_are_stable() {
    assert_eq!(SnsRecordsError::AlreadyInitialized.error_code(), 0);
    assert_eq!(SnsRecordsError::DataTypeMismatch.error_code(), 1);
    assert_eq!(SnsRecordsError::WrongOwner.error_code(), 2);
    assert_eq!(SnsRecordsError::Uninitialized.error_code(), 3);
    assert_eq!(SnsRecordsError::UnsupportedValidation.error_code(), 4);
    assert_eq!(SnsRecordsError::Secp256k1Recover.error_code(), 5);
    assert_eq!(SnsRecordsError::EthPubkeyMismatch.error_code(), 6);
    assert_eq!(SnsRecordsError::WrongDomainOwner.error_code(), 7);
    assert_eq!(SnsRecordsError::NumericalOverflow.error_code(), 8);
    assert_eq!(SnsRecordsError::OutOfBound.error_code(), 9);
    assert_eq!(SnsRecordsError::InvalidVerifier.error_code(), 10);
    assert_eq!(SnsRecordsError::WrongParent.error_code(), 11);
    assert_eq!(SnsRecordsError::WrongClass.error_code(), 12);
}
