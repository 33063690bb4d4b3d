use game_launcher::digest::{compute_digest_hex, verify_digest};
use game_launcher::hex::{bytes_eq, to_hex};

const ABC_SHA512: &str = "ddaf35a193617abacc417349ae20413112e6fa4e89a97ea20a9eeee64b55d39a2192992a274fc1a836ba3c23a3feebbd454d4423643ce80e2a9ac94fa54ca49f";
const EMPTY_SHA512: &str = "cf83e1357eefb8bdf1542850d66d8007d620e4050b5715dc83f4a921d36ce9ce47d0d13c5d85f2b0ff8318d2877eec2f63b931bd47417a81a538327af927da3e";

#[test]
fn known_digest_matches() {
    let data = b"abc".to_vec();
    let expected = ABC_SHA512.as_bytes().to_vec();
    assert!(verify_digest(&data, &expected).is_ok());
}

#[test]
fn empty_input_digest_matches() {
    let data: Vec<u8> = Vec::new();
    let expected = EMPTY_SHA512.as_bytes().to_vec();
    assert!(verify_digest(&data, &expected).is_ok());
}

#[test]
fn wrong_digest_is_refused() {
    let data = b"abc".to_vec();
    // the digest of the empty input, not of "abc"
    let expected = EMPTY_SHA512.as_bytes().to_vec();
    assert!(verify_digest(&data, &expected).is_err());
}

#[test]
fn digest_hex_has_the_documented_shape() {
    let hx = compute_digest_hex(&b"abc".to_vec());
    assert_eq!(hx.len(), 128);
    assert_eq!(hx, ABC_SHA512.as_bytes().to_vec());
}

#[test]
fn hex_rendering_is_exact() {
    assert_eq!(to_hex(&vec![0xab, 0x00, 0x7f]), b"ab007f".to_vec());
    assert_eq!(to_hex(&Vec::new()), Vec::<u8>::new());
}

#[test]
fn byte_equality_is_exact() {
    assert!(bytes_eq(&b"same".to_vec(), &b"same".to_vec()));
    assert!(!bytes_eq(&b"same".to_vec(), &b"sane".to_vec()));
    assert!(!bytes_eq(&b"short".to_vec(), &b"shorter".to_vec()));
}
