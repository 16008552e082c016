use rust_worker::sampling::{frame_interval, preview_frame_limit, FrameSampler, PreviewGate};

fn kept_indices(total: u64, count: u64, decoded: u64) -> Vec<u64> {
    let mut s = FrameSampler::new(total, count);
    let mut kept = Vec::new();
    for i in 0..decoded {
        if s.offer() {
            kept.push(i);
        }
    }
    assert_eq!(s.saved_count(), kept.len() as u64);
    kept
}

#[test]
fn ten_seconds_at_thirty_fps_five_frames() {
    assert_eq!(frame_interval(300, 5), 60);
    assert_eq!(kept_indices(300, 5, 300), vec![0, 60, 120, 180, 240]);
}

#[test]
fn sampling_keeps_min_of_count_and_total() {
    // more frames asked than there are: every frame
    assert_eq!(frame_interval(4, 10), 1);
    assert_eq!(kept_indices(4, 10, 4), vec![0, 1, 2, 3]);
    // interval rounds down: 10 / 3 = 3, stop after three
    assert_eq!(kept_indices(10, 3, 10), vec![0, 3, 6]);
    assert_eq!(kept_indices(7, 7, 7).len(), 7);
    assert_eq!(kept_indices(0, 5, 0), Vec::<u64>::new());
}

#[test]
fn sampling_with_unknown_frame_count_takes_leading_frames() {
    // a source that reports no frame count yields interval 1
    assert_eq!(frame_interval(0, 3), 1);
    assert_eq!(kept_indices(0, 3, 50), vec![0, 1, 2]);
}

#[test]
fn preview_cap() {
    assert_eq!(preview_frame_limit(5000, 10), 50);
    assert_eq!(preview_frame_limit(2500, 24), 60);
    assert_eq!(preview_frame_limit(999, 1), 0);
    assert_eq!(preview_frame_limit(u64::MAX, u32::MAX), u64::MAX);
}

#[test]
fn preview_gate_stops_at_cap() {
    let mut g = PreviewGate::new(300, 10);
    assert_eq!(g.limit, 3);
    let taken: Vec<bool> = (0..5).map(|_| g.take_frame()).collect();
    assert_eq!(taken, vec![true, true, true, false, false]);
    assert_eq!(g.admitted, 3);
    let mut none = PreviewGate::new(0, 30);
    assert!(!none.take_frame());
}
