use mercle_token::keys::bytes_eq;
use mercle_token::keys::key_eq;
use mercle_token::keys::key_is_zero;
use mercle_token::keys::zero_key;

#[test]
fn bytes_eq_compares_exactly() {
    assert!(bytes_eq(b"", b""));
    assert!(bytes_eq(b"abc", b"abc"));
    assert!(!bytes_eq(b"abc", b"abd"));
    assert!(!bytes_eq(b"abc", b"ab"));
    assert!(!bytes_eq(b"", b"a"));
}

#[test]
fn key_helpers() {
    let z = zero_key();
    assert_eq!(z, [0u8; 32]);
    assert!(key_is_zero(&z));
    let mut k = z;
    k[31] = 1;
    assert!(!key_is_zero(&k));
    assert!(key_eq(&k, &k));
    assert!(!key_eq(&k, &z));
}
