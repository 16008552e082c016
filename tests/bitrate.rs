use rust_worker::bitrate::parse_bitrate;
use rust_worker::error::{ErrorKind, JobError};

#[test]
fn bitrate_mega_suffix() {
    assert_eq!(parse_bitrate("1M"), Ok(1_000_000));
    assert_eq!(parse_bitrate("1m"), Ok(1_000_000));
    assert_eq!(parse_bitrate("25M"), Ok(25_000_000));
}

#[test]
fn bitrate_kilo_suffix() {
    assert_eq!(parse_bitrate("192k"), Ok(192_000));
    assert_eq!(parse_bitrate("192K"), Ok(192_000));
    assert_eq!(parse_bitrate("0k"), Ok(0));
}

#[test]
fn bitrate_plain_number() {
    assert_eq!(parse_bitrate("800000"), Ok(800_000));
    assert_eq!(parse_bitrate("+64"), Ok(64));
    assert_eq!(parse_bitrate("007"), Ok(7));
}

#[test]
fn bitrate_repeated_suffix_is_stripped() {
    assert_eq!(parse_bitrate("2kK"), Ok(2_000));
    assert_eq!(parse_bitrate("3MM"), Ok(3_000_000));
}

#[test]
fn bitrate_malformed_is_rejected() {
    for s in ["", "k", "M", "+", "+k", "-1", "1.5M", "12 k", "abc", "1kM", "1G", "１k"] {
        assert_eq!(parse_bitrate(s), Err(JobError::InvalidBitrate), "input {:?}", s);
    }
    assert_eq!(JobError::InvalidBitrate.kind(), ErrorKind::Parameter);
}

#[test]
fn bitrate_overflow_is_rejected() {
    assert_eq!(parse_bitrate("18446744073709551615"), Ok(usize::MAX));
    assert_eq!(parse_bitrate("18446744073709551616"), Err(JobError::InvalidBitrate));
    assert_eq!(parse_bitrate("18446744073709552k"), Err(JobError::InvalidBitrate));
    assert_eq!(parse_bitrate("18446744073709551k"), Ok(18_446_744_073_709_551_000));
    assert_eq!(parse_bitrate("18446744073710M"), Err(JobError::InvalidBitrate));
}
