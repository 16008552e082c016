use rust_worker::waveform::{waveform_blocks, Block};

fn ranges(total: usize, requested: usize) -> Vec<(usize, usize)> {
    waveform_blocks(total, requested).iter().map(|b: &Block| (b.start, b.end)).collect()
}

#[test]
fn waveform_blocks_truncate_to_requested() {
    // step 10 / 3 = 3; the short tail block is dropped
    assert_eq!(ranges(10, 3), vec![(0, 3), (3, 6), (6, 9)]);
    assert_eq!(ranges(12, 4), vec![(0, 3), (3, 6), (6, 9), (9, 12)]);
}

#[test]
fn waveform_length_equals_requested_for_long_input() {
    for (total, l) in [(1000usize, 1000usize), (44100, 1000), (1001, 1000), (1999, 1000), (7, 1)] {
        assert_eq!(waveform_blocks(total, l).len(), l, "total {} points {}", total, l);
    }
}

#[test]
fn waveform_short_input_still_has_requested_points() {
    // one point per sample, then empty blocks past the end
    assert_eq!(ranges(3, 5), vec![(0, 1), (1, 2), (2, 3), (3, 3), (3, 3)]);
    assert_eq!(ranges(0, 4), vec![(0, 0), (0, 0), (0, 0), (0, 0)]);
    for (total, l) in [(0usize, 1usize), (1, 1000), (999, 1000)] {
        let blocks = waveform_blocks(total, l);
        assert_eq!(blocks.len(), l);
        assert_eq!(blocks.iter().filter(|b| b.start < b.end).count(), total.min(l));
    }
}

#[test]
fn waveform_last_block_may_be_short() {
    assert_eq!(ranges(5, 2), vec![(0, 2), (2, 4)]);
    assert_eq!(ranges(5, 1), vec![(0, 5)]);
}
