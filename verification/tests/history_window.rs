use tilefps::history::FrameTimeHistory;

#[test]
fn average_of_two_samples() {
    let mut h = FrameTimeHistory::new();
    h.record(10_000_000);
    h.record(20_000_000);
    assert_eq!(h.len(), 2);
    assert_eq!(h.average_nanos(), 15_000_000);
}

#[test]
fn average_of_one_sample() {
    let mut h = FrameTimeHistory::new();
    h.record(1_000_000_000);
    assert_eq!(h.average_nanos(), 1_000_000_000);
}

#[test]
fn average_rounds_toward_zero() {
    let mut h = FrameTimeHistory::new();
    h.record(1);
    h.record(2);
    // (1 + 2) / 2 == 1 in integer nanoseconds.
    assert_eq!(h.average_nanos(), 1);
}

#[test]
fn window_appends_below_capacity() {
    let mut h = FrameTimeHistory::new();
    for i in 0..100u64 {
        h.record(i + 1);
    }
    assert_eq!(h.len(), 100);
    for i in 0..100usize {
        assert_eq!(h.sample_at(i), i as u64 + 1);
    }
}

#[test]
fn hundred_and_first_record_evicts_the_oldest() {
    let mut h = FrameTimeHistory::new();
    for i in 0..101u64 {
        h.record(i + 1);
    }
    // Exactly the last 100 distinct samples remain, in their original
    // relative order: 2, 3, ..., 101.
    assert_eq!(h.len(), 100);
    for i in 0..100usize {
        assert_eq!(h.sample_at(i), i as u64 + 2);
    }
}

#[test]
fn average_tracks_the_window_not_the_full_sequence() {
    let mut h = FrameTimeHistory::new();
    h.record(1_000_000);
    for _ in 0..100u64 {
        h.record(2_000_000);
    }
    // The single 1 ms sample was evicted; only 2 ms samples remain.
    assert_eq!(h.average_nanos(), 2_000_000);
}
