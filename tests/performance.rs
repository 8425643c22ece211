use pulsar_backend::{clamp_elapsed_nanos, max_from_raw, min_from_raw, MonitorCounters, MAX_UNSET, MIN_UNSET};

#[test]
fn counters_accumulate() {
    let c = MonitorCounters::new();
    c.add_frames_processed(256);
    c.add_frames_processed(256);
    c.increment_callback_count();
    c.increment_callback_count();
    c.increment_underrun_count();
    c.increment_overrun_count();
    c.increment_overrun_count();
    let r = c.read();
    assert_eq!(r.frames_processed, 512);
    assert_eq!(r.callback_count, 2);
    assert_eq!(r.underrun_count, 1);
    assert_eq!(r.overrun_count, 2);
    assert_eq!(r.min_callback_nanos, None);
    assert_eq!(r.max_callback_nanos, None);
    assert_eq!(r.ema_bits, 0);
}

#[test]
fn extremes_track_min_and_max() {
    let c = MonitorCounters::new();
    c.record_extremes(500);
    c.record_extremes(100);
    c.record_extremes(900);
    let r = c.read();
    assert_eq!(r.min_callback_nanos, Some(100));
    assert_eq!(r.max_callback_nanos, Some(900));
}

#[test]
fn reset_peaks_keeps_cumulative_counts() {
    let c = MonitorCounters::new();
    c.add_frames_processed(64);
    c.increment_callback_count();
    c.record_extremes(42);
    while c.exchange_ema_bits(0, 7).is_err() {}
    assert_eq!(c.ema_bits(), 7);
    c.reset_peaks();
    let r = c.read();
    assert_eq!(r.frames_processed, 64);
    assert_eq!(r.callback_count, 1);
    assert_eq!(r.min_callback_nanos, None);
    assert_eq!(r.max_callback_nanos, None);
    assert_eq!(r.ema_bits, 0);
    c.reset_all();
    let r = c.read();
    assert_eq!(r.frames_processed, 0);
    assert_eq!(r.callback_count, 0);
}

#[test]
fn ema_exchange_fails_on_stale_bits() {
    let c = MonitorCounters::new();
    while c.exchange_ema_bits(0, 11).is_err() {}
    assert_eq!(c.exchange_ema_bits(0, 12), Err(11));
    assert_eq!(c.ema_bits(), 11);
    while c.exchange_ema_bits(11, 12).is_err() {}
    assert_eq!(c.ema_bits(), 12);
}

#[test]
fn raw_markers_read_as_none() {
    assert_eq!(min_from_raw(MIN_UNSET), None);
    assert_eq!(min_from_raw(5), Some(5));
    assert_eq!(max_from_raw(MAX_UNSET), None);
    assert_eq!(max_from_raw(5), Some(5));
}

#[test]
fn elapsed_nanos_saturate() {
    assert_eq!(clamp_elapsed_nanos(0), 0);
    assert_eq!(clamp_elapsed_nanos(1_000), 1_000);
    assert_eq!(clamp_elapsed_nanos(u64::MAX as u128), u64::MAX);
    assert_eq!(clamp_elapsed_nanos(u64::MAX as u128 + 1), u64::MAX);
    assert_eq!(clamp_elapsed_nanos(u128::MAX), u64::MAX);
}
