//! Verified core of a real-time audio synthesis and mixing engine.
//!
//! The library holds the integer and structural logic of the engine: the
//! deterministic noise generator, the envelope state machines, wavetable
//! indexing, bus routing and buffer layout, the real-time period decisions,
//! lock-free telemetry counters, and stream-configuration negotiation.
//! Sample arithmetic is left to the embedding application.

mod noise;

pub use noise::{FastRng, BurstGate, lcg_step, lcg_iter, seed_state, draw_sequence, lemma_same_seed_same_draws};

mod envelope;

pub use envelope::{
    EnvelopeState, EnvelopeLevel, AdsrModel, AdsrMachine, adsr_step, state_is_active, ramp_ends,
    adsr_after, ramp_length, state_after_ramp, is_ramp, lemma_ramp_duration, lemma_finished_stays_silent,
    RampLevel, LinearRamp,
};

mod buffer;

pub use buffer::{planar_position, fill_silence, interleave, deinterleave, SilenceSource};

mod callback;

pub use callback::{AudioCallback, SilentProcessor, CallbackSlot};

mod performance;

pub use performance::{
    MIN_UNSET, MAX_UNSET, CounterReadings, min_reading, max_reading, min_from_raw, max_from_raw,
    clamp_elapsed_nanos, MonitorCounters,
};

mod routing;

pub use routing::{PanLaw, bus_count, bus_for, frames_in};

mod tables;

pub use tables::{TABLE_SIZE, TABLE_MASK, WaveformType, wrap_index, Wavetables, init_tables};

mod device;

pub use device::{
    HostId, SampleFormat, HostInfo, DeviceInfo, EnumError, ConfigRange, COMMON_RATES, RangeSummary,
    some_range_holds, increasing_u32, increasing_u16, format_seen_before, formats_in_order, summarize_ranges,
    lower_of, occurs_in, is_default_for, first_such, DeviceCatalog,
};

mod negotiation;

pub use negotiation::{
    SampleRatePriority, ChannelPriority, BufferSizePriority, BufferSize, ConfigurationRequest,
    StreamConfig, NegotiatedConfig, NegotiationError, ConfigNegotiator, STANDARD_RATES,
    rate_supported, best_standard_rate, greatest_u32, least_u32, least_u16, rate_refused,
    rate_chosen, rate_error, channels_accepted, channels_refused, channels_chosen, channels_error,
    fallback_format, format_strictly_refused, format_outcome, format_error, buffer_size_for,
    buffer_size_matches, rate_distance, first_nearest,
};
