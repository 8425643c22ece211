use vstd::prelude::*;
use crate::device::{DeviceInfo, SampleFormat, contains_format, contains_channels};

verus! {

/// How to pick a sample rate when the requested one cannot be had.
#[derive(Clone, Copy, Debug, PartialEq, Eq, Structural)]
pub enum SampleRatePriority {
    HighestQuality,
    LowestLatency,
    Standard,
    Exact,
}

/// How to pick a channel count when the requested one cannot be had.
#[derive(Clone, Copy, Debug, PartialEq, Eq, Structural)]
pub enum ChannelPriority {
    Maximum,
    Minimum,
    Default,
    Exact,
}

/// How to pick a buffer size when none is requested.
#[derive(Clone, Copy, Debug, PartialEq, Eq, Structural)]
pub enum BufferSizePriority {
    MinimumLatency,
    MaximumThroughput,
    Balanced,
    Default,
    Exact,
}

/// Buffer size of a stream: the host's default, or a fixed frame count.
#[derive(Clone, Copy, Debug, PartialEq, Eq, Structural)]
pub enum BufferSize {
    Default,
    Fixed(u32),
}

/// What an application asks of a device stream.
#[derive(Clone, Copy, Debug, PartialEq, Eq, Structural)]
pub struct ConfigurationRequest {
    pub sample_rate: Option<u32>,
    pub sample_rate_priority: SampleRatePriority,
    pub channels: Option<u16>,
    pub channel_priority: ChannelPriority,
    pub buffer_size: Option<u32>,
    pub buffer_size_priority: BufferSizePriority,
    pub sample_format: Option<SampleFormat>,
    pub allow_format_conversion: bool,
}

/// The stream parameters handed to the audio transport.
#[derive(Clone, Copy, Debug, PartialEq, Eq, Structural)]
pub struct StreamConfig {
    pub channels: u16,
    pub sample_rate: u32,
    pub buffer_size: BufferSize,
}

/// The outcome of negotiation, with whether each field is what was asked.
#[derive(Clone, Copy, Debug, PartialEq, Eq, Structural)]
pub struct NegotiatedConfig {
    pub sample_rate: u32,
    pub channels: u16,
    pub buffer_size: BufferSize,
    pub sample_format: SampleFormat,
    pub stream_config: StreamConfig,
    pub sample_rate_matched: bool,
    pub channels_matched: bool,
    pub buffer_size_matched: bool,
    pub format_matched: bool,
}

/// Why a configuration cannot be had.
#[derive(Clone, Debug)]
pub enum NegotiationError {
    SampleRateNotSupported { requested: u32, available: Vec<u32> },
    ChannelsNotSupported { requested: u16, available: Vec<u16> },
    FormatNotSupported { requested: SampleFormat, available: Vec<SampleFormat> },
    BufferSizeNotSupported { requested: u32 },
    NoCompatibleConfiguration,
    DeviceQueryFailed(String),
}

impl ConfigurationRequest {
    /// Nothing requested: standard rate, default channels, balanced buffer,
    /// any format, conversion allowed.
    pub fn new() -> (r: Self)
        ensures
            r == (ConfigurationRequest {
                sample_rate: None,
                sample_rate_priority: SampleRatePriority::Standard,
                channels: None,
                channel_priority: ChannelPriority::Default,
                buffer_size: None,
                buffer_size_priority: BufferSizePriority::Balanced,
                sample_format: None,
                allow_format_conversion: true,
            }),
    {
        ConfigurationRequest {
            sample_rate: None,
            sample_rate_priority: SampleRatePriority::Standard,
            channels: None,
            channel_priority: ChannelPriority::Default,
            buffer_size: None,
            buffer_size_priority: BufferSizePriority::Balanced,
            sample_format: None,
            allow_format_conversion: true,
        }
    }

    pub fn with_sample_rate(self, rate: u32) -> (r: Self)
        ensures
            r == (ConfigurationRequest { sample_rate: Some(rate), ..self }),
    {
        ConfigurationRequest { sample_rate: Some(rate), ..self }
    }

    pub fn with_sample_rate_priority(self, priority: SampleRatePriority) -> (r: Self)
        ensures
            r == (ConfigurationRequest { sample_rate_priority: priority, ..self }),
    {
        ConfigurationRequest { sample_rate_priority: priority, ..self }
    }

    pub fn with_channels(self, channels: u16) -> (r: Self)
        ensures
            r == (ConfigurationRequest { channels: Some(channels), ..self }),
    {
        ConfigurationRequest { channels: Some(channels), ..self }
    }

    pub fn with_channel_priority(self, priority: ChannelPriority) -> (r: Self)
        ensures
            r == (ConfigurationRequest { channel_priority: priority, ..self }),
    {
        ConfigurationRequest { channel_priority: priority, ..self }
    }

    pub fn with_buffer_size(self, size: u32) -> (r: Self)
        ensures
            r == (ConfigurationRequest { buffer_size: Some(size), ..self }),
    {
        ConfigurationRequest { buffer_size: Some(size), ..self }
    }

    pub fn with_buffer_size_priority(self, priority: BufferSizePriority) -> (r: Self)
        ensures
            r == (ConfigurationRequest { buffer_size_priority: priority, ..self }),
    {
        ConfigurationRequest { buffer_size_priority: priority, ..self }
    }

    pub fn with_sample_format(self, format: SampleFormat) -> (r: Self)
        ensures
            r == (ConfigurationRequest { sample_format: Some(format), ..self }),
    {
        ConfigurationRequest { sample_format: Some(format), ..self }
    }

    pub fn allow_format_conversion(self, allow: bool) -> (r: Self)
        ensures
            r == (ConfigurationRequest { allow_format_conversion: allow, ..self }),
    {
        ConfigurationRequest { allow_format_conversion: allow, ..self }
    }

    /// 48 kHz, 128-frame buffers, smallest latency first.
    pub fn low_latency() -> (r: Self)
        ensures
            r == (ConfigurationRequest {
                sample_rate: Some(48000),
                buffer_size: Some(128),
                buffer_size_priority: BufferSizePriority::MinimumLatency,
                sample_rate_priority: SampleRatePriority::Standard,
                ..ConfigurationRequest::spec_new()
            }),
    {
        Self::new()
            .with_sample_rate(48000)
            .with_buffer_size(128)
            .with_buffer_size_priority(BufferSizePriority::MinimumLatency)
            .with_sample_rate_priority(SampleRatePriority::Standard)
    }

    /// 96 kHz, 512-frame buffers, highest rate first.
    pub fn high_quality() -> (r: Self)
        ensures
            r == (ConfigurationRequest {
                sample_rate: Some(96000),
                buffer_size: Some(512),
                sample_rate_priority: SampleRatePriority::HighestQuality,
                buffer_size_priority: BufferSizePriority::Balanced,
                ..ConfigurationRequest::spec_new()
            }),
    {
        Self::new()
            .with_sample_rate(96000)
            .with_buffer_size(512)
            .with_sample_rate_priority(SampleRatePriority::HighestQuality)
            .with_buffer_size_priority(BufferSizePriority::Balanced)
    }

    /// 48 kHz, 256-frame buffers.
    pub fn balanced() -> (r: Self)
        ensures
            r == (ConfigurationRequest {
                sample_rate: Some(48000),
                buffer_size: Some(256),
                sample_rate_priority: SampleRatePriority::Standard,
                buffer_size_priority: BufferSizePriority::Balanced,
                ..ConfigurationRequest::spec_new()
            }),
    {
        Self::new()
            .with_sample_rate(48000)
            .with_buffer_size(256)
            .with_sample_rate_priority(SampleRatePriority::Standard)
            .with_buffer_size_priority(BufferSizePriority::Balanced)
    }

    /// Exactly 44.1 kHz, 128-frame buffers.
    pub fn music_production() -> (r: Self)
        ensures
            r == (ConfigurationRequest {
                sample_rate: Some(44100),
                buffer_size: Some(128),
                sample_rate_priority: SampleRatePriority::Exact,
                buffer_size_priority: BufferSizePriority::MinimumLatency,
                ..ConfigurationRequest::spec_new()
            }),
    {
        Self::new()
            .with_sample_rate(44100)
            .with_buffer_size(128)
            .with_sample_rate_priority(SampleRatePriority::Exact)
            .with_buffer_size_priority(BufferSizePriority::MinimumLatency)
    }

    /// The request that `new` returns.
    pub open spec fn spec_new() -> Self {
        ConfigurationRequest {
            sample_rate: None,
            sample_rate_priority: SampleRatePriority::Standard,
            channels: None,
            channel_priority: ChannelPriority::Default,
            buffer_size: None,
            buffer_size_priority: BufferSizePriority::Balanced,
            sample_format: None,
            allow_format_conversion: true,
        }
    }
}

impl Default for ConfigurationRequest {
    fn default() -> (r: Self)
        ensures
            r == ConfigurationRequest::spec_new(),
    {
        Self::new()
    }
}

/// The standard rates tried in turn when a rate must be chosen.
pub const STANDARD_RATES: [u32; 4] = [48000, 44100, 96000, 88200];

/// Whether `rate` lies within the device's rate range.
pub open spec fn rate_supported(d: DeviceInfo, rate: u32) -> bool {
    d.min_sample_rate <= rate && rate <= d.max_sample_rate
}

/// The first of 48000, 44100, 96000, 88200 that the device supports.
pub open spec fn best_standard_rate(d: DeviceInfo) -> Option<u32> {
    if rate_supported(d, 48000) {
        Some(48000u32)
    } else if rate_supported(d, 44100) {
        Some(44100u32)
    } else if rate_supported(d, 96000) {
        Some(96000u32)
    } else if rate_supported(d, 88200) {
        Some(88200u32)
    } else {
        None
    }
}

/// `x` is the largest element of `s`.
pub open spec fn greatest_u32(x: u32, s: Seq<u32>) -> bool {
    s.contains(x) && forall|i: int| 0 <= i < s.len() ==> s[i] <= x
}

/// `x` is the smallest element of `s`.
pub open spec fn least_u32(x: u32, s: Seq<u32>) -> bool {
    s.contains(x) && forall|i: int| 0 <= i < s.len() ==> x <= s[i]
}

/// `x` is the smallest element of `s`.
pub open spec fn least_u16(x: u16, s: Seq<u16>) -> bool {
    s.contains(x) && forall|i: int| 0 <= i < s.len() ==> x <= s[i]
}

/// The requested rate is refused outright: it is unsupported and must be exact.
pub open spec fn rate_refused(d: DeviceInfo, req: ConfigurationRequest) -> bool {
    match req.sample_rate {
        Some(r) => !rate_supported(d, r) && req.sample_rate_priority == SampleRatePriority::Exact,
        None => false,
    }
}

/// `v` is the rate that negotiation settles on, when it is not refused: the
/// requested rate when supported, else the one the priority picks.
pub open spec fn rate_chosen(d: DeviceInfo, req: ConfigurationRequest, v: u32) -> bool {
    match req.sample_rate {
        Some(r) if rate_supported(d, r) => v == r,
        _ => match req.sample_rate_priority {
            SampleRatePriority::HighestQuality => if d.supported_sample_rates@.len() > 0 {
                greatest_u32(v, d.supported_sample_rates@)
            } else {
                v == d.max_sample_rate
            },
            SampleRatePriority::LowestLatency => match best_standard_rate(d) {
                Some(b) => v == b,
                None => if d.supported_sample_rates@.len() > 0 {
                    least_u32(v, d.supported_sample_rates@)
                } else {
                    v == d.min_sample_rate
                },
            },
            SampleRatePriority::Standard => match best_standard_rate(d) {
                Some(b) => v == b,
                None => v == d.default_sample_rate,
            },
            SampleRatePriority::Exact => v == d.default_sample_rate,
        },
    }
}

/// `e` reports the refused rate with the device's supported rates.
pub open spec fn rate_error(d: DeviceInfo, req: ConfigurationRequest, e: NegotiationError) -> bool {
    match e {
        NegotiationError::SampleRateNotSupported { requested, available } =>
            req.sample_rate == Some(requested) && available@ == d.supported_sample_rates@,
        _ => false,
    }
}

/// Whether the device takes `c` channels.
pub open spec fn channels_accepted(d: DeviceInfo, c: u16) -> bool {
    d.supported_channels@.contains(c) || c <= d.max_channels
}

/// The requested channel count is refused outright.
pub open spec fn channels_refused(d: DeviceInfo, req: ConfigurationRequest) -> bool {
    match req.channels {
        Some(c) => !channels_accepted(d, c) && req.channel_priority == ChannelPriority::Exact,
        None => false,
    }
}

/// `v` is the channel count that negotiation settles on, when not refused.
pub open spec fn channels_chosen(d: DeviceInfo, req: ConfigurationRequest, v: u16) -> bool {
    match req.channels {
        Some(c) if channels_accepted(d, c) => v == c,
        _ => match req.channel_priority {
            ChannelPriority::Maximum => v == d.max_channels,
            ChannelPriority::Minimum => if d.supported_channels@.len() > 0 {
                least_u16(v, d.supported_channels@)
            } else {
                v == d.default_channels
            },
            _ => v == d.default_channels,
        },
    }
}

/// `e` reports the refused channel count with the supported counts.
pub open spec fn channels_error(d: DeviceInfo, req: ConfigurationRequest, e: NegotiationError) -> bool {
    match e {
        NegotiationError::ChannelsNotSupported { requested, available } =>
            req.channels == Some(requested) && available@ == d.supported_channels@,
        _ => false,
    }
}

/// The format chosen when the request does not settle it: the device's
/// default if supported, else F32, I16, U16 in turn, else the first listed.
pub open spec fn fallback_format(d: DeviceInfo) -> Option<SampleFormat> {
    let fs = d.supported_sample_formats@;
    if fs.contains(d.default_sample_format) {
        Some(d.default_sample_format)
    } else if fs.contains(SampleFormat::F32) {
        Some(SampleFormat::F32)
    } else if fs.contains(SampleFormat::I16) {
        Some(SampleFormat::I16)
    } else if fs.contains(SampleFormat::U16) {
        Some(SampleFormat::U16)
    } else if fs.len() > 0 {
        Some(fs[0])
    } else {
        None
    }
}

/// The requested format is unsupported and may not be converted.
pub open spec fn format_strictly_refused(d: DeviceInfo, req: ConfigurationRequest) -> bool {
    match req.sample_format {
        Some(f) => !d.supported_sample_formats@.contains(f) && !req.allow_format_conversion,
        None => false,
    }
}

/// The format negotiation settles on, or `None` when it fails.
pub open spec fn format_outcome(d: DeviceInfo, req: ConfigurationRequest) -> Option<SampleFormat> {
    match req.sample_format {
        Some(f) if d.supported_sample_formats@.contains(f) => Some(f),
        _ => if format_strictly_refused(d, req) { None } else { fallback_format(d) },
    }
}

/// `e` is the error of a failed format negotiation.
pub open spec fn format_error(d: DeviceInfo, req: ConfigurationRequest, e: NegotiationError) -> bool {
    if format_strictly_refused(d, req) {
        match e {
            NegotiationError::FormatNotSupported { requested, available } =>
                req.sample_format == Some(requested) && available@ == d.supported_sample_formats@,
            _ => false,
        }
    } else {
        e is NoCompatibleConfiguration
    }
}

/// The buffer size negotiation settles on: the requested size, else the
/// one the priority names (128, 2048, 512 frames, or the host default).
pub open spec fn buffer_size_for(req: ConfigurationRequest) -> BufferSize {
    match req.buffer_size {
        Some(n) => BufferSize::Fixed(n),
        None => match req.buffer_size_priority {
            BufferSizePriority::MinimumLatency => BufferSize::Fixed(128),
            BufferSizePriority::MaximumThroughput => BufferSize::Fixed(2048),
            BufferSizePriority::Balanced => BufferSize::Fixed(512),
            _ => BufferSize::Default,
        },
    }
}

/// Whether the negotiated buffer size is the one requested.
pub open spec fn buffer_size_matches(req: Option<u32>, actual: BufferSize) -> bool {
    match (req, actual) {
        (Some(r), BufferSize::Fixed(a)) => r == a,
        (None, _) => true,
        _ => false,
    }
}

/// Distance between two rates.
pub open spec fn rate_distance(a: u32, b: u32) -> int {
    if a >= b { a - b } else { b - a }
}

/// Entry `i` of `s` is the first of those nearest to `target`.
pub open spec fn first_nearest(s: Seq<u32>, target: u32, i: int) -> bool {
    &&& 0 <= i < s.len()
    &&& forall|j: int| 0 <= j < s.len() ==> rate_distance(s[i], target) <= rate_distance(#[trigger] s[j], target)
    &&& forall|j: int| 0 <= j < i ==> rate_distance(s[i], target) < rate_distance(#[trigger] s[j], target)
}

/// Negotiates a stream configuration against a device's capabilities.
pub struct ConfigNegotiator;

fn max_rate(rates: &Vec<u32>) -> (r: u32)
    requires
        rates@.len() > 0,
    ensures
        greatest_u32(r, rates@),
{
    let mut best = rates[0];
    let mut i: usize = 1;
    while i < rates.len()
        invariant
            1 <= i <= rates@.len(),
            rates@.contains(best),
            forall|j: int| 0 <= j < i ==> rates@[j] <= best,
        decreases rates@.len() - i,
    {
        if rates[i] > best {
            best = rates[i];
        }
        i = i + 1;
    }
    best
}

fn min_rate(rates: &Vec<u32>) -> (r: u32)
    requires
        rates@.len() > 0,
    ensures
        least_u32(r, rates@),
{
    let mut best = rates[0];
    let mut i: usize = 1;
    while i < rates.len()
        invariant
            1 <= i <= rates@.len(),
            rates@.contains(best),
            forall|j: int| 0 <= j < i ==> best <= rates@[j],
        decreases rates@.len() - i,
    {
        if rates[i] < best {
            best = rates[i];
        }
        i = i + 1;
    }
    best
}

fn min_channels(channels: &Vec<u16>) -> (r: u16)
    requires
        channels@.len() > 0,
    ensures
        least_u16(r, channels@),
{
    let mut best = channels[0];
    let mut i: usize = 1;
    while i < channels.len()
        invariant
            1 <= i <= channels@.len(),
            channels@.contains(best),
            forall|j: int| 0 <= j < i ==> best <= channels@[j],
        decreases channels@.len() - i,
    {
        if channels[i] < best {
            best = channels[i];
        }
        i = i + 1;
    }
    best
}

fn copy_rates(v: &Vec<u32>) -> (r: Vec<u32>)
    ensures
        r@ == v@,
{
    let r = v.clone();
    assert(r@ =~= v@);
    r
}

fn copy_channels(v: &Vec<u16>) -> (r: Vec<u16>)
    ensures
        r@ == v@,
{
    let r = v.clone();
    assert(r@ =~= v@);
    r
}

fn copy_formats(v: &Vec<SampleFormat>) -> (r: Vec<SampleFormat>)
    ensures
        r@ == v@,
{
    let r = v.clone();
    assert(r@ =~= v@);
    r
}

impl ConfigNegotiator {
    /// Whether `rate` lies within the device's rate range.
    pub fn is_sample_rate_supported(device_info: &DeviceInfo, rate: u32) -> (r: bool)
        ensures
            r == rate_supported(*device_info, rate),
    {
        rate >= device_info.min_sample_rate && rate <= device_info.max_sample_rate
    }

    /// The first of the standard rates that the device supports.
    pub fn find_best_standard_rate(device_info: &DeviceInfo) -> (r: Option<u32>)
        ensures
            r == best_standard_rate(*device_info),
    {
        let mut i: usize = 0;
        while i < 4
            invariant
                i <= 4,
                forall|j: int| 0 <= j < i ==> !rate_supported(*device_info, #[trigger] STANDARD_RATES[j]),
            decreases 4 - i,
        {
            if Self::is_sample_rate_supported(device_info, STANDARD_RATES[i]) {
                return Some(STANDARD_RATES[i]);
            }
            i = i + 1;
        }
        None
    }

    fn negotiate_sample_rate(device_info: &DeviceInfo, request: &ConfigurationRequest) -> (r: Result<u32, NegotiationError>)
        ensures
            rate_refused(*device_info, *request) ==> (r matches Err(e) && rate_error(*device_info, *request, e)),
            !rate_refused(*device_info, *request) ==> (r matches Ok(v) && rate_chosen(*device_info, *request, v)),
    {
        if let Some(requested) = request.sample_rate {
            if Self::is_sample_rate_supported(device_info, requested) {
                return Ok(requested);
            }
            if request.sample_rate_priority == SampleRatePriority::Exact {
                return Err(NegotiationError::SampleRateNotSupported {
                    requested,
                    available: copy_rates(&device_info.supported_sample_rates),
                });
            }
        }
        match request.sample_rate_priority {
            SampleRatePriority::HighestQuality => {
                if device_info.supported_sample_rates.len() > 0 {
                    Ok(max_rate(&device_info.supported_sample_rates))
                } else {
                    Ok(device_info.max_sample_rate)
                }
            },
            SampleRatePriority::LowestLatency => {
                match Self::find_best_standard_rate(device_info) {
                    Some(rate) => Ok(rate),
                    None => if device_info.supported_sample_rates.len() > 0 {
                        Ok(min_rate(&device_info.supported_sample_rates))
                    } else {
                        Ok(device_info.min_sample_rate)
                    },
                }
            },
            SampleRatePriority::Standard => {
                match Self::find_best_standard_rate(device_info) {
                    Some(rate) => Ok(rate),
                    None => Ok(device_info.default_sample_rate),
                }
            },
            SampleRatePriority::Exact => Ok(device_info.default_sample_rate),
        }
    }

    fn negotiate_channels(device_info: &DeviceInfo, request: &ConfigurationRequest) -> (r: Result<u16, NegotiationError>)
        ensures
            channels_refused(*device_info, *request) ==> (r matches Err(e) && channels_error(*device_info, *request, e)),
            !channels_refused(*device_info, *request) ==> (r matches Ok(v) && channels_chosen(*device_info, *request, v)),
    {
        if let Some(requested) = request.channels {
            if contains_channels(&device_info.supported_channels, requested) || requested <= device_info.max_channels {
                return Ok(requested);
            }
            if request.channel_priority == ChannelPriority::Exact {
                return Err(NegotiationError::ChannelsNotSupported {
                    requested,
                    available: copy_channels(&device_info.supported_channels),
                });
            }
        }
        match request.channel_priority {
            ChannelPriority::Maximum => Ok(device_info.max_channels),
            ChannelPriority::Minimum => {
                if device_info.supported_channels.len() > 0 {
                    Ok(min_channels(&device_info.supported_channels))
                } else {
                    Ok(device_info.default_channels)
                }
            },
            ChannelPriority::Default => Ok(device_info.default_channels),
            ChannelPriority::Exact => Ok(device_info.default_channels),
        }
    }

    fn negotiate_sample_format(device_info: &DeviceInfo, request: &ConfigurationRequest) -> (r: Result<SampleFormat, NegotiationError>)
        ensures
            format_outcome(*device_info, *request) matches Some(f) ==> r == Ok::<SampleFormat, NegotiationError>(f),
            format_outcome(*device_info, *request) is None ==> (r matches Err(e) && format_error(*device_info, *request, e)),
    {
        let formats = &device_info.supported_sample_formats;
        if let Some(requested) = request.sample_format {
            if contains_format(formats, requested) {
                return Ok(requested);
            }
            if !request.allow_format_conversion {
                return Err(NegotiationError::FormatNotSupported { requested, available: copy_formats(formats) });
            }
        }
        if contains_format(formats, device_info.default_sample_format) {
            return Ok(device_info.default_sample_format);
        }
        if contains_format(formats, SampleFormat::F32) {
            return Ok(SampleFormat::F32);
        }
        if contains_format(formats, SampleFormat::I16) {
            return Ok(SampleFormat::I16);
        }
        if contains_format(formats, SampleFormat::U16) {
            return Ok(SampleFormat::U16);
        }
        if formats.len() > 0 {
            Ok(formats[0])
        } else {
            Err(NegotiationError::NoCompatibleConfiguration)
        }
    }

    fn negotiate_buffer_size(request: &ConfigurationRequest) -> (r: BufferSize)
        ensures
            r == buffer_size_for(*request),
    {
        match request.buffer_size {
            Some(requested_size) => BufferSize::Fixed(requested_size),
            None => match request.buffer_size_priority {
                BufferSizePriority::MinimumLatency => BufferSize::Fixed(128),
                BufferSizePriority::MaximumThroughput => BufferSize::Fixed(2048),
                BufferSizePriority::Balanced => BufferSize::Fixed(512),
                BufferSizePriority::Default => BufferSize::Default,
                BufferSizePriority::Exact => BufferSize::Default,
            },
        }
    }

    /// Settles sample rate, channel count, sample format and buffer size
    /// against what the device supports, in that order; the first refusal is
    /// the error. Each `*_matched` flag says whether the field is the one
    /// requested (a field not requested counts as matched).
    pub fn negotiate(device_info: &DeviceInfo, request: &ConfigurationRequest) -> (r: Result<NegotiatedConfig, NegotiationError>)
        ensures
            r is Ok <==> !rate_refused(*device_info, *request) && !channels_refused(*device_info, *request)
                && format_outcome(*device_info, *request) is Some,
            rate_refused(*device_info, *request) ==> (r matches Err(e) && rate_error(*device_info, *request, e)),
            !rate_refused(*device_info, *request) && channels_refused(*device_info, *request)
                ==> (r matches Err(e) && channels_error(*device_info, *request, e)),
            !rate_refused(*device_info, *request) && !channels_refused(*device_info, *request)
                && format_outcome(*device_info, *request) is None
                ==> (r matches Err(e) && format_error(*device_info, *request, e)),
            r matches Ok(c) ==> {
                &&& rate_chosen(*device_info, *request, c.sample_rate)
                &&& channels_chosen(*device_info, *request, c.channels)
                &&& format_outcome(*device_info, *request) == Some(c.sample_format)
                &&& c.buffer_size == buffer_size_for(*request)
                &&& c.stream_config == (StreamConfig {
                    channels: c.channels,
                    sample_rate: c.sample_rate,
                    buffer_size: c.buffer_size,
                })
                &&& c.sample_rate_matched == (request.sample_rate matches Some(x) ==> x == c.sample_rate)
                &&& c.channels_matched == (request.channels matches Some(x) ==> x == c.channels)
                &&& c.format_matched == (request.sample_format matches Some(x) ==> x == c.sample_format)
                &&& c.buffer_size_matched == buffer_size_matches(request.buffer_size, c.buffer_size)
            },
    {
        let sample_rate = match Self::negotiate_sample_rate(device_info, request) {
            Ok(v) => v,
            Err(e) => return Err(e),
        };
        let channels = match Self::negotiate_channels(device_info, request) {
            Ok(v) => v,
            Err(e) => return Err(e),
        };
        let sample_format = match Self::negotiate_sample_format(device_info, request) {
            Ok(v) => v,
            Err(e) => return Err(e),
        };
        let buffer_size = Self::negotiate_buffer_size(request);
        let sample_rate_matched = match request.sample_rate {
            Some(x) => x == sample_rate,
            None => true,
        };
        let channels_matched = match request.channels {
            Some(x) => x == channels,
            None => true,
        };
        let format_matched = match request.sample_format {
            Some(x) => x == sample_format,
            None => true,
        };
        let buffer_size_matched = match (request.buffer_size, buffer_size) {
            (Some(x), BufferSize::Fixed(actual)) => x == actual,
            (None, _) => true,
            _ => false,
        };
        Ok(NegotiatedConfig {
            sample_rate,
            channels,
            buffer_size,
            sample_format,
            stream_config: StreamConfig { channels, sample_rate, buffer_size },
            sample_rate_matched,
            channels_matched,
            buffer_size_matched,
            format_matched,
        })
    }

    /// The listed rate nearest to `target` (the first of equally near ones);
    /// with no rates listed, `target` clamped into the device's range.
    pub fn find_closest_sample_rate(device_info: &DeviceInfo, target: u32) -> (r: Option<u32>)
        ensures
            device_info.supported_sample_rates@.len() == 0 ==> r == Some(
                if target < device_info.min_sample_rate {
                    device_info.min_sample_rate
                } else if target <= device_info.max_sample_rate {
                    target
                } else {
                    device_info.max_sample_rate
                },
            ),
            device_info.supported_sample_rates@.len() > 0 ==> (r matches Some(v) && exists|i: int|
                first_nearest(device_info.supported_sample_rates@, target, i)
                    && device_info.supported_sample_rates@[i] == v),
    {
        let rates = &device_info.supported_sample_rates;
        if rates.len() == 0 {
            if target >= device_info.min_sample_rate && target <= device_info.max_sample_rate {
                return Some(target);
            }
            if target < device_info.min_sample_rate {
                return Some(device_info.min_sample_rate);
            }
            return Some(device_info.max_sample_rate);
        }
        let mut best: usize = 0;
        let mut best_distance: u32 = if rates[0] >= target { rates[0] - target } else { target - rates[0] };
        let mut i: usize = 1;
        while i < rates.len()
            invariant
                1 <= i <= rates@.len(),
                best < i,
                best_distance as int == rate_distance(rates@[best as int], target),
                forall|j: int| 0 <= j < i ==> rate_distance(rates@[best as int], target) <= rate_distance(#[trigger] rates@[j], target),
                forall|j: int| 0 <= j < best ==> rate_distance(rates@[best as int], target) < rate_distance(#[trigger] rates@[j], target),
            decreases rates@.len() - i,
        {
            let d = if rates[i] >= target { rates[i] - target } else { target - rates[i] };
            if d < best_distance {
                best = i;
                best_distance = d;
            }
            i = i + 1;
        }
        assert(first_nearest(rates@, target, best as int));
        Some(rates[best])
    }

    /// Checks a configuration against the device: the rate must lie in its
    /// range, the channel count must not exceed its maximum, and the format
    /// must be listed; the first failed check is the error.
    pub fn validate_config(device_info: &DeviceInfo, sample_rate: u32, channels: u16, format: SampleFormat) -> (r: Result<(), NegotiationError>)
        ensures
            !rate_supported(*device_info, sample_rate) ==> (r matches Err(NegotiationError::SampleRateNotSupported { requested, available })
                && requested == sample_rate && available@ == device_info.supported_sample_rates@),
            rate_supported(*device_info, sample_rate) && channels > device_info.max_channels
                ==> (r matches Err(NegotiationError::ChannelsNotSupported { requested, available })
                && requested == channels && available@ == device_info.supported_channels@),
            rate_supported(*device_info, sample_rate) && channels <= device_info.max_channels
                && !device_info.supported_sample_formats@.contains(format)
                ==> (r matches Err(NegotiationError::FormatNotSupported { requested, available })
                && requested == format && available@ == device_info.supported_sample_formats@),
            r is Ok <==> rate_supported(*device_info, sample_rate) && channels <= device_info.max_channels
                && device_info.supported_sample_formats@.contains(format),
    {
        if !Self::is_sample_rate_supported(device_info, sample_rate) {
            return Err(NegotiationError::SampleRateNotSupported {
                requested: sample_rate,
                available: copy_rates(&device_info.supported_sample_rates),
            });
        }
        if channels > device_info.max_channels {
            return Err(NegotiationError::ChannelsNotSupported {
                requested: channels,
                available: copy_channels(&device_info.supported_channels),
            });
        }
        if !contains_format(&device_info.supported_sample_formats, format) {
            return Err(NegotiationError::FormatNotSupported {
                requested: format,
                available: copy_formats(&device_info.supported_sample_formats),
            });
        }
        Ok(())
    }
}

} // verus!
