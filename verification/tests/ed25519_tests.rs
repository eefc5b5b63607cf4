use mercle_token::ed25519::Instruction;
use mercle_token::ed25519::ed25519_program_id;
use mercle_token::ed25519::parse_ed25519_single;
use mercle_token::ed25519::verify_admin_signature_only;
use mercle_token::ed25519::verify_user_and_admin_signatures;
use mercle_token::errors::MercleError;

/// Builds a well-formed single-signer precompile record: the 16-byte
/// header, then public key, signature and message at their offsets.
fn well_formed_record(pubkey: &[u8; 32], signature: &[u8; 64], message: &[u8]) -> Vec<u8> {
    let sig_off: u16 = 16 + 32;
    let pk_off: u16 = 16;
    let msg_off: u16 = 16 + 32 + 64;
    let msg_size: u16 = message.len() as u16;
    let mut data: Vec<u8> = Vec::new();
    data.push(1); // one signature
    data.push(0); // padding
    data.extend_from_slice(&sig_off.to_le_bytes());
    data.extend_from_slice(&u16::MAX.to_le_bytes());
    data.extend_from_slice(&pk_off.to_le_bytes());
    data.extend_from_slice(&u16::MAX.to_le_bytes());
    data.extend_from_slice(&msg_off.to_le_bytes());
    data.extend_from_slice(&msg_size.to_le_bytes());
    data.extend_from_slice(&u16::MAX.to_le_bytes());
    data.extend_from_slice(pubkey);
    data.extend_from_slice(signature);
    data.extend_from_slice(message);
    data
}

fn precompile_instruction(pubkey: &[u8; 32], signature: &[u8; 64], message: &[u8]) -> Instruction {
    Instruction {
        program_id: ed25519_program_id(),
        data: well_formed_record(pubkey, signature, message),
    }
}

#[test]
fn parse_well_formed_record() {
    let pk = [5u8; 32];
    let sig = [6u8; 64];
    let msg = b"claim message".to_vec();
    let data = well_formed_record(&pk, &sig, &msg);
    let parsed = parse_ed25519_single(&data).expect("well-formed record must parse");
    assert_eq!(parsed.0, pk.to_vec());
    assert_eq!(parsed.1, sig.to_vec());
    assert_eq!(parsed.2, msg);
}

#[test]
fn parse_rejects_short_record() {
    assert!(parse_ed25519_single(&[1u8; 15]).is_none());
    assert!(parse_ed25519_single(&[]).is_none());
}

#[test]
fn parse_rejects_multi_signature_count() {
    let pk = [5u8; 32];
    let sig = [6u8; 64];
    let mut data = well_formed_record(&pk, &sig, b"m");
    data[0] = 2;
    assert!(parse_ed25519_single(&data).is_none());
    data[0] = 0;
    assert!(parse_ed25519_single(&data).is_none());
}

#[test]
fn parse_rejects_out_of_bounds_offsets() {
    let pk = [5u8; 32];
    let sig = [6u8; 64];
    let msg = b"hello";

    // Public key offset past the end.
    let mut data = well_formed_record(&pk, &sig, msg);
    let bad = (data.len() as u16).to_le_bytes();
    data[6] = bad[0];
    data[7] = bad[1];
    assert!(parse_ed25519_single(&data).is_none());

    // Signature offset past the end.
    let mut data = well_formed_record(&pk, &sig, msg);
    data[2] = bad[0];
    data[3] = bad[1];
    assert!(parse_ed25519_single(&data).is_none());

    // Message size running past the end.
    let mut data = well_formed_record(&pk, &sig, msg);
    let too_long = (msg.len() as u16 + 1).to_le_bytes();
    data[12] = too_long[0];
    data[13] = too_long[1];
    assert!(parse_ed25519_single(&data).is_none());
}

#[test]
fn verify_finds_matching_record() {
    let pk = [5u8; 32];
    let sig = [6u8; 64];
    let msg = b"the exact message".to_vec();
    let instructions = vec![precompile_instruction(&pk, &sig, &msg)];
    assert_eq!(verify_admin_signature_only(&instructions, &msg, &sig, &pk), Ok(()));
}

#[test]
fn verify_skips_foreign_programs_and_garbage() {
    let pk = [5u8; 32];
    let sig = [6u8; 64];
    let msg = b"the exact message".to_vec();
    // A record with the right bytes but addressed to another program, and
    // a garbage record addressed to the precompile, then the real one.
    let foreign = Instruction { program_id: [1u8; 32], data: well_formed_record(&pk, &sig, &msg) };
    let garbage = Instruction { program_id: ed25519_program_id(), data: vec![0xffu8; 40] };
    let real = precompile_instruction(&pk, &sig, &msg);
    let instructions = vec![foreign, garbage, real];
    assert_eq!(verify_admin_signature_only(&instructions, &msg, &sig, &pk), Ok(()));
}

#[test]
fn verify_fails_without_any_record() {
    let pk = [5u8; 32];
    let sig = [6u8; 64];
    let msg = b"the exact message".to_vec();
    let instructions: Vec<Instruction> = Vec::new();
    assert_eq!(
        verify_admin_signature_only(&instructions, &msg, &sig, &pk),
        Err(MercleError::AdminSignatureNotVerified)
    );
}

#[test]
fn verify_fails_on_wrong_program_id() {
    let pk = [5u8; 32];
    let sig = [6u8; 64];
    let msg = b"the exact message".to_vec();
    let foreign = Instruction { program_id: [1u8; 32], data: well_formed_record(&pk, &sig, &msg) };
    let instructions = vec![foreign];
    assert_eq!(
        verify_admin_signature_only(&instructions, &msg, &sig, &pk),
        Err(MercleError::AdminSignatureNotVerified)
    );
}

#[test]
fn verify_fails_on_wrong_signer_or_signature() {
    let pk = [5u8; 32];
    let sig = [6u8; 64];
    let msg = b"the exact message".to_vec();
    let instructions = vec![precompile_instruction(&pk, &sig, &msg)];
    let other_pk = [7u8; 32];
    assert_eq!(
        verify_admin_signature_only(&instructions, &msg, &sig, &other_pk),
        Err(MercleError::AdminSignatureNotVerified)
    );
    let other_sig = [8u8; 64];
    assert_eq!(
        verify_admin_signature_only(&instructions, &msg, &other_sig, &pk),
        Err(MercleError::AdminSignatureNotVerified)
    );
}

#[test]
fn verify_two_pairs_independently() {
    let user_pk = [5u8; 32];
    let user_sig = [6u8; 64];
    let admin_pk = [7u8; 32];
    let admin_sig = [8u8; 64];
    let msg = b"dual-signed claim".to_vec();
    let both = vec![
        precompile_instruction(&user_pk, &user_sig, &msg),
        precompile_instruction(&admin_pk, &admin_sig, &msg),
    ];
    assert_eq!(
        verify_user_and_admin_signatures(&both, &msg, &user_sig, &user_pk, &admin_sig, &admin_pk),
        Ok(())
    );
    // Only the admin's record present: the user's role is unmatched.
    let admin_only = vec![precompile_instruction(&admin_pk, &admin_sig, &msg)];
    assert_eq!(
        verify_user_and_admin_signatures(&admin_only, &msg, &user_sig, &user_pk, &admin_sig, &admin_pk),
        Err(MercleError::UserSignatureNotVerified)
    );
    // Only the user's record present: the admin's role is unmatched.
    let user_only = vec![precompile_instruction(&user_pk, &user_sig, &msg)];
    assert_eq!(
        verify_user_and_admin_signatures(&user_only, &msg, &user_sig, &user_pk, &admin_sig, &admin_pk),
        Err(MercleError::AdminSignatureNotVerified)
    );
}

#[test]
fn signature_binding_single_byte_change() {
    let pk = [5u8; 32];
    let sig = [6u8; 64];
    let message = b"amount:100".to_vec();
    let instructions = vec![precompile_instruction(&pk, &sig, &message)];
    // The record verifies the exact message it binds.
    assert_eq!(verify_admin_signature_only(&instructions, &message, &sig, &pk), Ok(()));
    // A message differing in a single byte is never accepted.
    let mut other = message.clone();
    other[9] = b'1';
    assert_eq!(
        verify_admin_signature_only(&instructions, &other, &sig, &pk),
        Err(MercleError::AdminSignatureNotVerified)
    );
    // Nor a prefix or an extension of the bound message.
    assert_eq!(
        verify_admin_signature_only(&instructions, &message[..9], &sig, &pk),
        Err(MercleError::AdminSignatureNotVerified)
    );
    let mut extended = message.clone();
    extended.push(b'0');
    assert_eq!(
        verify_admin_signature_only(&instructions, &extended, &sig, &pk),
        Err(MercleError::AdminSignatureNotVerified)
    );
}
