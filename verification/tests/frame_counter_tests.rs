use framecore::frame_counter::FrameCounter;

#[test]
fn fresh_counter_is_zero() {
    let c = FrameCounter::default();
    assert_eq!(c.absolute_frame_count(), 0);
    assert_eq!(c.last_frame_time(), 0);
    assert!(c.past_n_durations().is_empty());
}

#[test]
fn counts_accumulate_one_per_frame() {
    let mut c = FrameCounter::default();
    for i in 0..5u64 {
        c.record_frame(i + 1);
        assert_eq!(c.absolute_frame_count(), i + 1);
    }
    assert_eq!(c.past_n_durations().len(), 5);
}

#[test]
fn history_holds_min_of_count_and_bound() {
    let mut c = FrameCounter::default();
    for i in 0..365u64 {
        c.record_frame(i);
    }
    assert_eq!(c.absolute_frame_count(), 365);
    let h = c.past_n_durations();
    assert_eq!(h.len(), 360);
    // the five oldest entries were evicted, order kept
    assert_eq!(h[0], 5);
    assert_eq!(h[359], 364);
}

#[test]
fn history_keeps_oldest_to_newest_order() {
    // consecutive frame intervals of 10 ms, 20 ms, 30 ms
    let mut c = FrameCounter::default();
    c.record_frame(10_000_000);
    c.record_frame(20_000_000);
    c.record_frame(30_000_000);
    assert_eq!(c.past_n_durations(), vec![10_000_000, 20_000_000, 30_000_000]);
    assert_eq!(c.last_frame_time(), 30_000_000);
}

#[test]
fn history_supports_documented_rates() {
    // with intervals 10 ms, 20 ms, 30 ms the mean interval is 20 ms,
    // an average rate of 50 frames per second, and the per-sample
    // rates are 100, 50 and 33.33 oldest to newest
    let mut c = FrameCounter::default();
    c.record_frame(10_000_000);
    c.record_frame(20_000_000);
    c.record_frame(30_000_000);
    let h = c.past_n_durations();
    let mean_ms: f64 =
        h.iter().map(|&n| n as f64 / 1_000_000.0).sum::<f64>() / h.len() as f64;
    assert!((mean_ms - 20.0).abs() < 1e-9);
    let avg_fps = 1.0 / (mean_ms / 1000.0);
    assert!((avg_fps - 50.0).abs() < 1e-9);
    let per_sample: Vec<f64> = h.iter().map(|&n| 1.0 / (n as f64 / 1e9)).collect();
    assert!((per_sample[0] - 100.0).abs() < 1e-9);
    assert!((per_sample[1] - 50.0).abs() < 1e-9);
    assert!((per_sample[2] - 33.33).abs() < 0.01);
}

#[test]
fn frame_presented_uses_the_clock() {
    let mut c = FrameCounter::default();
    c.frame_presented();
    c.frame_presented();
    assert_eq!(c.absolute_frame_count(), 2);
    assert_eq!(c.past_n_durations().len(), 2);
}
