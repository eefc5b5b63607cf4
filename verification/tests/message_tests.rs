use mercle_token::message::ClaimPayload;
use mercle_token::message::build_claim_message;
use mercle_token::message::domain_tag;
use mercle_token::message::payload_bytes;

fn sample_payload() -> ClaimPayload {
    ClaimPayload {
        user_address: [7u8; 32],
        claim_amount: 100,
        expiry_time: 1_700_000_060,
        nonce: 0,
    }
}

#[test]
fn domain_tag_is_ascii_protocol_tag() {
    let tag = domain_tag();
    assert_eq!(tag.as_slice(), b"MERCLE_CLAIM_V1");
}

#[test]
fn payload_bytes_exact_layout() {
    let p = sample_payload();
    let bytes = payload_bytes(&p);
    let mut expected: Vec<u8> = Vec::new();
    expected.extend_from_slice(&[7u8; 32]);
    expected.extend_from_slice(&100u64.to_le_bytes());
    expected.extend_from_slice(&1_700_000_060i64.to_le_bytes());
    expected.extend_from_slice(&0u64.to_le_bytes());
    assert_eq!(bytes, expected);
    assert_eq!(bytes.len(), 56);
}

#[test]
fn payload_bytes_negative_expiry() {
    let p = ClaimPayload {
        user_address: [0u8; 32],
        claim_amount: 1,
        expiry_time: -1,
        nonce: u64::MAX,
    };
    let bytes = payload_bytes(&p);
    let mut expected: Vec<u8> = Vec::new();
    expected.extend_from_slice(&[0u8; 32]);
    expected.extend_from_slice(&1u64.to_le_bytes());
    expected.extend_from_slice(&(-1i64).to_le_bytes());
    expected.extend_from_slice(&u64::MAX.to_le_bytes());
    assert_eq!(bytes, expected);
}

#[test]
fn claim_message_exact_bytes() {
    let program_id = [9u8; 32];
    let p = sample_payload();
    let msg = build_claim_message(&program_id, &p);
    let mut expected: Vec<u8> = Vec::new();
    expected.extend_from_slice(b"MERCLE_CLAIM_V1");
    expected.extend_from_slice(&program_id);
    expected.extend_from_slice(&[7u8; 32]);
    expected.extend_from_slice(&100u64.to_le_bytes());
    expected.extend_from_slice(&1_700_000_060i64.to_le_bytes());
    expected.extend_from_slice(&0u64.to_le_bytes());
    assert_eq!(msg, expected);
    assert_eq!(msg.len(), 15 + 32 + 56);
}

#[test]
fn claim_message_deterministic() {
    let program_id = [9u8; 32];
    let p = sample_payload();
    let first = build_claim_message(&program_id, &p);
    let second = build_claim_message(&program_id, &p);
    assert_eq!(first, second);
}

#[test]
fn claim_message_binds_every_field() {
    let program_id = [9u8; 32];
    let base = sample_payload();
    let reference = build_claim_message(&program_id, &base);

    let mut changed_amount = base;
    changed_amount.claim_amount = 101;
    assert_ne!(build_claim_message(&program_id, &changed_amount), reference);

    let mut changed_nonce = base;
    changed_nonce.nonce = 1;
    assert_ne!(build_claim_message(&program_id, &changed_nonce), reference);

    let mut changed_expiry = base;
    changed_expiry.expiry_time = 1_700_000_061;
    assert_ne!(build_claim_message(&program_id, &changed_expiry), reference);

    let mut changed_destination = base;
    changed_destination.user_address = [8u8; 32];
    assert_ne!(build_claim_message(&program_id, &changed_destination), reference);

    let other_program = [10u8; 32];
    assert_ne!(build_claim_message(&other_program, &base), reference);
}
