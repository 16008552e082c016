use rust_worker::checksum::{checksum_matches, digest_hex};

#[test]
fn digest_is_written_in_lowercase_hex() {
    assert_eq!(digest_hex(&[0x00, 0xab, 0xff, 0x10]), "00abff10");
    assert_eq!(digest_hex(&[]), "");
}

#[test]
fn checksum_comparison_is_exact() {
    let digest = [0xde, 0xad, 0xbe, 0xef];
    assert!(checksum_matches(&digest, "deadbeef"));
    assert!(!checksum_matches(&digest, "DEADBEEF"));
    assert!(!checksum_matches(&digest, "deadbee"));
    assert!(!checksum_matches(&digest, "deadbeef00"));
    assert!(checksum_matches(&[], ""));
}
