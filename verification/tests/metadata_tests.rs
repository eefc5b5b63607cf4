use mercle_token::errors::MercleError;
use mercle_token::metadata::create_metadata;
use mercle_token::metadata::metadata_instruction_data;
use mercle_token::ops::create_token_mint;
use mercle_token::ops::initialize;
use mercle_token::state::TokenState;

const ADMIN: [u8; 32] = [1u8; 32];
const UPGRADER: [u8; 32] = [2u8; 32];
const MINT: [u8; 32] = [3u8; 32];
const STRANGER: [u8; 32] = [5u8; 32];

fn state_with_mint() -> TokenState {
    let mut s = initialize(ADMIN, UPGRADER, 3600, true, true).unwrap();
    create_token_mint(&mut s, &MINT, 6, b"Mercle".to_vec(), b"MRC".to_vec()).unwrap();
    s
}

#[test]
fn metadata_instruction_data_exact_bytes() {
    let data = metadata_instruction_data(b"Mercle", b"MRC", b"https://example.invalid/token.json");
    let mut expected: Vec<u8> = vec![33u8];
    expected.extend_from_slice(&6u32.to_le_bytes());
    expected.extend_from_slice(b"Mercle");
    expected.extend_from_slice(&3u32.to_le_bytes());
    expected.extend_from_slice(b"MRC");
    expected.extend_from_slice(&34u32.to_le_bytes());
    expected.extend_from_slice(b"https://example.invalid/token.json");
    expected.extend_from_slice(&0u16.to_le_bytes());
    expected.push(0); // no creators
    expected.push(0); // no collection
    expected.push(0); // no uses
    expected.push(1); // mutable
    assert_eq!(data, expected);
}

#[test]
fn metadata_instruction_data_empty_fields() {
    let data = metadata_instruction_data(b"", b"", b"");
    let mut expected: Vec<u8> = vec![33u8];
    expected.extend_from_slice(&0u32.to_le_bytes());
    expected.extend_from_slice(&0u32.to_le_bytes());
    expected.extend_from_slice(&0u32.to_le_bytes());
    expected.extend_from_slice(&0u16.to_le_bytes());
    expected.extend_from_slice(&[0, 0, 0, 1]);
    assert_eq!(data, expected);
}

#[test]
fn create_metadata_checks_and_encodes() {
    let s = state_with_mint();
    assert_eq!(
        create_metadata(&s, &ADMIN, &[7u8; 32], b"Mercle", b"MRC", b"u"),
        Err(MercleError::InvalidTokenMint)
    );
    assert_eq!(
        create_metadata(&s, &STRANGER, &MINT, b"Mercle", b"MRC", b"u"),
        Err(MercleError::UnauthorizedAdmin)
    );
    assert_eq!(
        create_metadata(&s, &ADMIN, &MINT, &[b'a'; 33], b"MRC", b"u"),
        Err(MercleError::InvalidTokenNameLength)
    );
    assert_eq!(
        create_metadata(&s, &ADMIN, &MINT, b"Mercle", &[b'a'; 17], b"u"),
        Err(MercleError::InvalidTokenSymbolLength)
    );
    let data = create_metadata(&s, &ADMIN, &MINT, b"Mercle", b"MRC", b"u").unwrap();
    assert_eq!(data, metadata_instruction_data(b"Mercle", b"MRC", b"u"));
    // Boundary lengths are accepted.
    assert!(create_metadata(&s, &ADMIN, &MINT, &[b'a'; 32], &[b'b'; 16], b"u").is_ok());
}
