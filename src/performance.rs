use vstd::prelude::*;
use std::sync::atomic::{AtomicU64, Ordering};

verus! {

/// Raw value of the minimum-duration counter while no duration is recorded.
pub const MIN_UNSET: u64 = 0xffff_ffff_ffff_ffff;

/// Raw value of the maximum-duration counter while no duration is recorded.
pub const MAX_UNSET: u64 = 0;

/// One reading of every counter, taken load by load (not as one atomic whole).
#[derive(Clone, Copy, Debug, PartialEq, Eq, Structural)]
pub struct CounterReadings {
    pub frames_processed: u64,
    pub callback_count: u64,
    pub underrun_count: u64,
    pub overrun_count: u64,
    pub min_callback_nanos: Option<u64>,
    pub max_callback_nanos: Option<u64>,
    /// Bit pattern of the moving average of callback durations.
    pub ema_bits: u64,
}

/// A recorded minimum: the unset marker reads as none.
pub open spec fn min_reading(raw: u64) -> Option<u64> {
    if raw == MIN_UNSET { None } else { Some(raw) }
}

/// A recorded maximum: the unset marker reads as none.
pub open spec fn max_reading(raw: u64) -> Option<u64> {
    if raw == MAX_UNSET { None } else { Some(raw) }
}

/// Turns the raw minimum into a reading.
pub fn min_from_raw(raw: u64) -> (r: Option<u64>)
    ensures
        r == min_reading(raw),
{
    if raw == MIN_UNSET { None } else { Some(raw) }
}

/// Turns the raw maximum into a reading.
pub fn max_from_raw(raw: u64) -> (r: Option<u64>)
    ensures
        r == max_reading(raw),
{
    if raw == MAX_UNSET { None } else { Some(raw) }
}

/// An elapsed time in nanoseconds, saturated to what a `u64` holds.
pub fn clamp_elapsed_nanos(nanos: u128) -> (r: u64)
    ensures
        r as int == if nanos > u64::MAX as u128 { u64::MAX as int } else { nanos as int },
{
    if nanos > u64::MAX as u128 {
        u64::MAX
    } else {
        nanos as u64
    }
}

/// Lock-free telemetry counters of the real-time path. Every update is a
/// single atomic operation or an atomic retry loop, so it never blocks.
pub struct MonitorCounters {
    frames_processed: AtomicU64,
    callback_count: AtomicU64,
    underrun_count: AtomicU64,
    overrun_count: AtomicU64,
    min_callback_nanos: AtomicU64,
    max_callback_nanos: AtomicU64,
    ema_callback_bits: AtomicU64,
}

impl MonitorCounters {
    /// All counts zero, no duration recorded, moving average zero.
    pub fn new() -> (r: MonitorCounters) {
        MonitorCounters {
            frames_processed: AtomicU64::new(0),
            callback_count: AtomicU64::new(0),
            underrun_count: AtomicU64::new(0),
            overrun_count: AtomicU64::new(0),
            min_callback_nanos: AtomicU64::new(MIN_UNSET),
            max_callback_nanos: AtomicU64::new(MAX_UNSET),
            ema_callback_bits: AtomicU64::new(0),
        }
    }

    /// Adds `n` to the frames processed.
    pub fn add_frames_processed(&self, n: u64) {
        self.frames_processed.fetch_add(n, Ordering::Relaxed);
    }

    /// Counts one callback.
    pub fn increment_callback_count(&self) {
        self.callback_count.fetch_add(1, Ordering::Relaxed);
    }

    /// Counts one underrun.
    pub fn increment_underrun_count(&self) {
        self.underrun_count.fetch_add(1, Ordering::Relaxed);
    }

    /// Counts one overrun.
    pub fn increment_overrun_count(&self) {
        self.overrun_count.fetch_add(1, Ordering::Relaxed);
    }

    /// Folds a callback duration into the running minimum and maximum.
    pub fn record_extremes(&self, nanos: u64) {
        self.min_callback_nanos.fetch_min(nanos, Ordering::Relaxed);
        self.max_callback_nanos.fetch_max(nanos, Ordering::Relaxed);
    }

    /// Current bit pattern of the moving average.
    pub fn ema_bits(&self) -> u64 {
        self.ema_callback_bits.load(Ordering::Relaxed)
    }

    /// One attempt to replace the moving average's bits `current` by `new`;
    /// on failure, returns the bits found instead.
    pub fn exchange_ema_bits(&self, current: u64, new: u64) -> Result<u64, u64> {
        self.ema_callback_bits.compare_exchange_weak(current, new, Ordering::Relaxed, Ordering::Relaxed)
    }

    /// Reads every counter.
    pub fn read(&self) -> CounterReadings {
        let frames_processed = self.frames_processed.load(Ordering::Relaxed);
        let callback_count = self.callback_count.load(Ordering::Relaxed);
        let underrun_count = self.underrun_count.load(Ordering::Relaxed);
        let overrun_count = self.overrun_count.load(Ordering::Relaxed);
        let min_raw = self.min_callback_nanos.load(Ordering::Relaxed);
        let max_raw = self.max_callback_nanos.load(Ordering::Relaxed);
        let ema_bits = self.ema_callback_bits.load(Ordering::Relaxed);
        CounterReadings {
            frames_processed,
            callback_count,
            underrun_count,
            overrun_count,
            min_callback_nanos: min_from_raw(min_raw),
            max_callback_nanos: max_from_raw(max_raw),
            ema_bits,
        }
    }

    /// Forgets the minimum, the maximum and the moving average; the
    /// cumulative counts stay.
    pub fn reset_peaks(&self) {
        self.min_callback_nanos.store(MIN_UNSET, Ordering::Relaxed);
        self.max_callback_nanos.store(MAX_UNSET, Ordering::Relaxed);
        self.ema_callback_bits.store(0, Ordering::Relaxed);
    }

    /// Zeroes every counter, the cumulative ones included.
    pub fn reset_all(&self) {
        self.frames_processed.store(0, Ordering::Relaxed);
        self.callback_count.store(0, Ordering::Relaxed);
        self.underrun_count.store(0, Ordering::Relaxed);
        self.overrun_count.store(0, Ordering::Relaxed);
        self.reset_peaks();
    }
}

} // verus!
