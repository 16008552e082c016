use rust_worker::error::{ErrorKind, JobError};
use rust_worker::mux::MuxAdapter;

#[test]
fn mux_write_order() {
    let mut m = MuxAdapter::new(2);
    assert_eq!(m.admit_packet(0, 0), Err(JobError::MuxSequence));
    assert_eq!(m.write_trailer(), Err(JobError::MuxSequence));
    assert_eq!(m.write_header(), Ok(()));
    assert_eq!(m.write_header(), Err(JobError::MuxSequence));
    assert_eq!(m.admit_packet(0, 10), Ok(()));
    assert_eq!(m.admit_packet(1, 3), Ok(()));
    assert_eq!(m.admit_packet(0, 10), Ok(()));
    assert_eq!(m.admit_packet(0, 9), Err(JobError::TimestampOrder));
    assert_eq!(m.admit_packet(2, 50), Err(JobError::MuxSequence));
    assert_eq!(m.admit_packet(1, 4), Ok(()));
    assert_eq!(m.write_trailer(), Ok(()));
    assert_eq!(m.write_trailer(), Err(JobError::MuxSequence));
    assert_eq!(m.admit_packet(0, 11), Err(JobError::MuxSequence));
    assert_eq!(JobError::TimestampOrder.kind(), ErrorKind::Mux);
}

#[test]
fn mux_rejected_packet_changes_nothing() {
    let mut m = MuxAdapter::new(1);
    m.write_header().unwrap();
    m.admit_packet(0, 100).unwrap();
    assert_eq!(m.admit_packet(0, 50), Err(JobError::TimestampOrder));
    assert_eq!(m.last_ts[0], Some(100));
    assert_eq!(m.admit_packet(0, 100), Ok(()));
}
