use rebuild::rebuild_options::power_of_two;
use rebuild::rebuild_stats::{elapsed_secs, progress_percent, throughput, ThroughputWindow};
use rebuild::RebuildOptions;

#[test]
fn progress_is_the_rounded_down_percentage() {
    assert_eq!(progress_percent(0, 16), 0);
    assert_eq!(progress_percent(8, 16), 50);
    assert_eq!(progress_percent(1, 3), 33);
    assert_eq!(progress_percent(2, 3), 66);
    assert_eq!(progress_percent(15, 16), 93);
    assert_eq!(progress_percent(16, 16), 100);
    assert_eq!(progress_percent(u64::MAX - 1, u64::MAX), 99);
}

#[test]
fn progress_is_complete_when_nothing_is_left() {
    assert_eq!(progress_percent(0, 0), 100);
    assert_eq!(progress_percent(17, 16), 100);
}

#[test]
fn elapsed_is_zero_when_the_clock_stands_or_steps_back() {
    assert_eq!(elapsed_secs(100, 160), 60);
    assert_eq!(elapsed_secs(100, 100), 0);
    assert_eq!(elapsed_secs(100, 40), 0);
    assert_eq!(elapsed_secs(-5, 5), 10);
    assert_eq!(elapsed_secs(i64::MIN, i64::MAX), u64::MAX);
}

#[test]
fn throughput_is_bytes_per_second() {
    assert_eq!(throughput(16, 512, 2), 4096);
    assert_eq!(throughput(16, 512, 3), 2730);
    assert_eq!(throughput(0, 512, 3), 0);
    assert_eq!(throughput(1, 512, 1024), 0);
}

#[test]
fn throughput_is_zero_when_no_time_has_passed() {
    assert_eq!(throughput(16, 512, 0), 0);
}

#[test]
fn throughput_is_capped() {
    assert_eq!(throughput(u64::MAX as u128, u64::MAX, 1), u64::MAX);
    assert_eq!(throughput(u128::MAX, 2, 1), u64::MAX);
    assert_eq!(throughput(u128::MAX, u64::MAX, u64::MAX), u64::MAX);
    assert_eq!(throughput(u64::MAX as u128, 2, 2), u64::MAX);
    assert_eq!(throughput(u64::MAX as u128, 2, 4), u64::MAX / 2);
}

#[test]
fn window_counts_the_recent_samples_only() {
    let mut w = ThroughputWindow::new(10);
    assert_eq!(w.blocks_within(100), 0);
    w.record(100, 8);
    w.record(105, 8);
    w.record(109, 4);
    assert_eq!(w.blocks_within(109), 20);
    assert_eq!(w.blocks_within(110), 12);
    assert_eq!(w.blocks_within(114), 12);
    assert_eq!(w.blocks_within(115), 4);
    assert_eq!(w.blocks_within(119), 0);
    // Samples of the future are not in the window yet.
    assert_eq!(w.blocks_within(104), 8);
    assert_eq!(w.blocks_within(99), 0);
}

#[test]
fn window_throughput_is_bytes_over_the_window() {
    let mut w = ThroughputWindow::new(10);
    w.record(100, 8);
    w.record(105, 8);
    assert_eq!(w.throughput(105, 512), 16 * 512 / 10);
    assert_eq!(w.throughput(110, 512), 8 * 512 / 10);
    assert_eq!(w.throughput(200, 512), 0);
}

#[test]
fn window_drops_what_has_expired() {
    let mut w = ThroughputWindow::new(10);
    w.record(100, 8);
    w.record(101, 8);
    w.record(120, 1);
    // The two old samples left when the third came.
    assert_eq!(w.blocks_within(105), 0);
    assert_eq!(w.blocks_within(120), 1);
}

#[test]
fn window_of_no_length_has_no_throughput() {
    let mut w = ThroughputWindow::new(0);
    w.record(100, 8);
    assert_eq!(w.blocks_within(100), 0);
    assert_eq!(w.throughput(100, 512), 0);
}

#[test]
fn window_holds_large_counts() {
    let mut w = ThroughputWindow::new(10);
    w.record(1, u64::MAX);
    w.record(2, u64::MAX);
    assert_eq!(w.blocks_within(2), 2 * (u64::MAX as u128));
    assert_eq!(w.throughput(2, 1), u64::MAX / 5);
    assert_eq!(w.throughput(2, 10), u64::MAX);
}

#[test]
fn powers_of_two() {
    for k in 0..64 {
        assert!(power_of_two(1u64 << k));
    }
    for n in [0u64, 3, 5, 6, 7, 9, 12, 1000, 131071, 131073, u64::MAX] {
        assert!(!power_of_two(n));
    }
}

#[test]
fn default_options() {
    let o = RebuildOptions::default();
    assert_eq!(o.segment_tasks(), 16);
    assert_eq!(o.segment_size_bytes(), 128 * 1024);
    assert_eq!(o.history_depth(), 8);
    assert_eq!(o.throughput_window_secs(), 10);
    assert_eq!(rebuild::SEGMENT_TASKS, 16);
    assert_eq!(rebuild::SEGMENT_SIZE, 131072);
}

#[test]
fn options_within_limits() {
    assert!(RebuildOptions::new(1, 512, 0, 0).is_some());
    assert!(RebuildOptions::new(64, 1 << 20, 100, 60).is_some());
    let o = RebuildOptions::new(4, 4096, 2, 5).unwrap();
    assert_eq!(
        (o.segment_tasks(), o.segment_size_bytes(), o.history_depth(), o.throughput_window_secs()),
        (4, 4096, 2, 5)
    );
}

#[test]
fn options_out_of_limits() {
    assert!(RebuildOptions::new(0, 4096, 8, 10).is_none());
    assert!(RebuildOptions::new(65, 4096, 8, 10).is_none());
    assert!(RebuildOptions::new(16, 0, 8, 10).is_none());
    assert!(RebuildOptions::new(16, 3000, 8, 10).is_none());
}
