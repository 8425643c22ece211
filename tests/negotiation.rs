use pulsar_backend::{
    summarize_ranges, BufferSize, BufferSizePriority, ChannelPriority, ConfigNegotiator, ConfigRange,
    ConfigurationRequest, DeviceCatalog, DeviceInfo, EnumError, HostId, HostInfo, NegotiationError,
    SampleFormat, SampleRatePriority,
};

fn device() -> DeviceInfo {
    DeviceInfo {
        name: String::from("Studio Interface"),
        host_id: HostId::Alsa,
        is_default: true,
        is_input: false,
        is_output: true,
        supported_sample_rates: vec![44100, 48000, 96000],
        min_sample_rate: 44100,
        max_sample_rate: 96000,
        default_sample_rate: 48000,
        supported_channels: vec![1, 2, 8],
        max_channels: 8,
        default_channels: 2,
        supported_sample_formats: vec![SampleFormat::I16, SampleFormat::F32],
        default_sample_format: SampleFormat::F32,
        device_index: 0,
    }
}

#[test]
fn supported_request_is_taken_as_is() {
    let req = ConfigurationRequest::new().with_sample_rate(96000).with_channels(8).with_buffer_size(64);
    let c = ConfigNegotiator::negotiate(&device(), &req).unwrap();
    assert_eq!(c.sample_rate, 96000);
    assert_eq!(c.channels, 8);
    assert_eq!(c.buffer_size, BufferSize::Fixed(64));
    assert_eq!(c.sample_format, SampleFormat::F32);
    assert_eq!(c.stream_config.sample_rate, 96000);
    assert!(c.sample_rate_matched && c.channels_matched && c.buffer_size_matched && c.format_matched);
}

#[test]
fn exact_rate_not_supported_is_an_error() {
    let req = ConfigurationRequest::music_production().with_sample_rate(22050);
    match ConfigNegotiator::negotiate(&device(), &req) {
        Err(NegotiationError::SampleRateNotSupported { requested, available }) => {
            assert_eq!(requested, 22050);
            assert_eq!(available, vec![44100, 48000, 96000]);
        }
        other => panic!("unexpected {:?}", other),
    }
}

#[test]
fn highest_quality_falls_back_to_largest_rate() {
    let req = ConfigurationRequest::new()
        .with_sample_rate(192000)
        .with_sample_rate_priority(SampleRatePriority::HighestQuality);
    let c = ConfigNegotiator::negotiate(&device(), &req).unwrap();
    assert_eq!(c.sample_rate, 96000);
    assert!(!c.sample_rate_matched);
}

#[test]
fn standard_priority_prefers_48k() {
    let req = ConfigurationRequest::new().with_sample_rate(8000);
    let c = ConfigNegotiator::negotiate(&device(), &req).unwrap();
    assert_eq!(c.sample_rate, 48000);
}

#[test]
fn lowest_latency_without_standard_rate_takes_smallest() {
    let mut d = device();
    d.supported_sample_rates = vec![22050, 16000];
    d.min_sample_rate = 16000;
    d.max_sample_rate = 22050;
    let req = ConfigurationRequest::new().with_sample_rate_priority(SampleRatePriority::LowestLatency);
    let c = ConfigNegotiator::negotiate(&d, &req).unwrap();
    assert_eq!(c.sample_rate, 16000);
}

#[test]
fn exact_channels_beyond_maximum_is_an_error() {
    let req = ConfigurationRequest::new().with_channels(12).with_channel_priority(ChannelPriority::Exact);
    match ConfigNegotiator::negotiate(&device(), &req) {
        Err(NegotiationError::ChannelsNotSupported { requested, available }) => {
            assert_eq!(requested, 12);
            assert_eq!(available, vec![1, 2, 8]);
        }
        other => panic!("unexpected {:?}", other),
    }
}

#[test]
fn minimum_channels_falls_back_to_smallest() {
    let req = ConfigurationRequest::new().with_channels(12).with_channel_priority(ChannelPriority::Minimum);
    let c = ConfigNegotiator::negotiate(&device(), &req).unwrap();
    assert_eq!(c.channels, 1);
    assert!(!c.channels_matched);
}

#[test]
fn unsupported_format_without_conversion_is_an_error() {
    let req = ConfigurationRequest::new().with_sample_format(SampleFormat::U8).allow_format_conversion(false);
    match ConfigNegotiator::negotiate(&device(), &req) {
        Err(NegotiationError::FormatNotSupported { requested, available }) => {
            assert_eq!(requested, SampleFormat::U8);
            assert_eq!(available, vec![SampleFormat::I16, SampleFormat::F32]);
        }
        other => panic!("unexpected {:?}", other),
    }
}

#[test]
fn format_falls_back_in_preference_order() {
    let mut d = device();
    d.default_sample_format = SampleFormat::U32;
    d.supported_sample_formats = vec![SampleFormat::U16, SampleFormat::I16];
    let req = ConfigurationRequest::new().with_sample_format(SampleFormat::F64);
    let c = ConfigNegotiator::negotiate(&d, &req).unwrap();
    assert_eq!(c.sample_format, SampleFormat::I16);
    assert!(!c.format_matched);
    d.supported_sample_formats = vec![SampleFormat::I32, SampleFormat::U8];
    let c = ConfigNegotiator::negotiate(&d, &req).unwrap();
    assert_eq!(c.sample_format, SampleFormat::I32);
}

#[test]
fn no_formats_is_no_compatible_configuration() {
    let mut d = device();
    d.supported_sample_formats = vec![];
    match ConfigNegotiator::negotiate(&d, &ConfigurationRequest::new()) {
        Err(NegotiationError::NoCompatibleConfiguration) => {}
        other => panic!("unexpected {:?}", other),
    }
}

#[test]
fn buffer_size_follows_priority() {
    let d = device();
    let sizes = [
        (BufferSizePriority::MinimumLatency, BufferSize::Fixed(128)),
        (BufferSizePriority::MaximumThroughput, BufferSize::Fixed(2048)),
        (BufferSizePriority::Balanced, BufferSize::Fixed(512)),
        (BufferSizePriority::Default, BufferSize::Default),
        (BufferSizePriority::Exact, BufferSize::Default),
    ];
    for (p, expected) in sizes {
        let req = ConfigurationRequest::new().with_buffer_size_priority(p);
        let c = ConfigNegotiator::negotiate(&d, &req).unwrap();
        assert_eq!(c.buffer_size, expected);
        assert!(c.buffer_size_matched);
    }
    let req = ConfigurationRequest::low_latency();
    let c = ConfigNegotiator::negotiate(&d, &req).unwrap();
    assert_eq!(c.buffer_size, BufferSize::Fixed(128));
    assert_eq!(c.sample_rate, 48000);
}

#[test]
fn presets_fill_their_fields() {
    let h = ConfigurationRequest::high_quality();
    assert_eq!(h.sample_rate, Some(96000));
    assert_eq!(h.buffer_size, Some(512));
    assert_eq!(h.sample_rate_priority, SampleRatePriority::HighestQuality);
    let b = ConfigurationRequest::balanced();
    assert_eq!(b.buffer_size, Some(256));
    let d = ConfigurationRequest::default();
    assert_eq!(d, ConfigurationRequest::new());
    assert!(d.allow_format_conversion);
}

#[test]
fn closest_rate_prefers_first_of_equals() {
    let mut d = device();
    d.supported_sample_rates = vec![44000, 48000, 46000];
    assert_eq!(ConfigNegotiator::find_closest_sample_rate(&d, 47000), Some(48000));
    assert_eq!(ConfigNegotiator::find_closest_sample_rate(&d, 45000), Some(44000));
    assert_eq!(ConfigNegotiator::find_closest_sample_rate(&d, 1), Some(44000));
}

#[test]
fn closest_rate_without_list_clamps() {
    let mut d = device();
    d.supported_sample_rates = vec![];
    assert_eq!(ConfigNegotiator::find_closest_sample_rate(&d, 50000), Some(50000));
    assert_eq!(ConfigNegotiator::find_closest_sample_rate(&d, 8000), Some(44100));
    assert_eq!(ConfigNegotiator::find_closest_sample_rate(&d, 200000), Some(96000));
}

#[test]
fn validate_reports_first_failure() {
    let d = device();
    assert!(ConfigNegotiator::validate_config(&d, 48000, 2, SampleFormat::F32).is_ok());
    assert!(matches!(
        ConfigNegotiator::validate_config(&d, 8000, 20, SampleFormat::U8),
        Err(NegotiationError::SampleRateNotSupported { requested: 8000, .. })
    ));
    assert!(matches!(
        ConfigNegotiator::validate_config(&d, 48000, 20, SampleFormat::U8),
        Err(NegotiationError::ChannelsNotSupported { requested: 20, .. })
    ));
    assert!(matches!(
        ConfigNegotiator::validate_config(&d, 48000, 2, SampleFormat::U8),
        Err(NegotiationError::FormatNotSupported { requested: SampleFormat::U8, .. })
    ));
}

#[test]
fn standard_rate_search_order() {
    let d = device();
    assert_eq!(ConfigNegotiator::find_best_standard_rate(&d), Some(48000));
    assert!(ConfigNegotiator::is_sample_rate_supported(&d, 44100));
    assert!(!ConfigNegotiator::is_sample_rate_supported(&d, 44099));
    let mut low = device();
    low.min_sample_rate = 8000;
    low.max_sample_rate = 44100;
    assert_eq!(ConfigNegotiator::find_best_standard_rate(&low), Some(44100));
    low.max_sample_rate = 22050;
    assert_eq!(ConfigNegotiator::find_best_standard_rate(&low), None);
}

#[test]
fn ranges_summarize_into_capabilities() {
    let ranges = vec![
        ConfigRange { min_sample_rate: 44100, max_sample_rate: 48000, channels: 2, sample_format: SampleFormat::I16 },
        ConfigRange { min_sample_rate: 8000, max_sample_rate: 16000, channels: 1, sample_format: SampleFormat::F32 },
        ConfigRange { min_sample_rate: 44100, max_sample_rate: 96000, channels: 2, sample_format: SampleFormat::I16 },
    ];
    let s = summarize_ranges(&ranges);
    assert_eq!(s.sample_rates, vec![8000, 11025, 16000, 44100, 48000, 88200, 96000]);
    assert_eq!(s.min_sample_rate, 8000);
    assert_eq!(s.max_sample_rate, 96000);
    assert_eq!(s.channels, vec![1, 2]);
    assert_eq!(s.max_channels, 2);
    assert_eq!(s.sample_formats, vec![SampleFormat::I16, SampleFormat::F32]);
}

#[test]
fn empty_ranges_summarize_to_nothing() {
    let s = summarize_ranges(&vec![]);
    assert!(s.sample_rates.is_empty());
    assert_eq!(s.min_sample_rate, u32::MAX);
    assert_eq!(s.max_sample_rate, 0);
    assert!(s.channels.is_empty());
    assert_eq!(s.max_channels, 0);
    assert!(s.sample_formats.is_empty());
}

fn catalog() -> DeviceCatalog {
    let mut speakers = device();
    speakers.name = String::from("USB Speakers");
    speakers.is_default = false;
    speakers.device_index = 0;
    let mut interface = device();
    interface.device_index = 1;
    let mut mic = device();
    mic.name = String::from("Headset Mic");
    mic.is_output = false;
    mic.is_input = true;
    mic.is_default = false;
    mic.device_index = 2;
    DeviceCatalog {
        hosts: vec![
            HostInfo { id: HostId::Alsa, name: String::from("ALSA"), is_available: true, is_default: true },
            HostInfo { id: HostId::Jack, name: String::from("JACK"), is_available: false, is_default: false },
        ],
        devices: vec![speakers, interface, mic],
    }
}

#[test]
fn catalog_filters_by_direction() {
    let c = catalog();
    assert_eq!(c.devices_of(true), vec![0, 1]);
    assert_eq!(c.devices_of(false), vec![2]);
    assert_eq!(c.available_hosts(), vec![0]);
}

#[test]
fn catalog_finds_default_and_index() {
    let c = catalog();
    assert_eq!(c.default_device(true).unwrap().device_index, 1);
    assert!(matches!(c.default_device(false), Err(EnumError::NoDevicesFound)));
    assert_eq!(c.device_by_index(2).unwrap().name, "Headset Mic");
    assert!(matches!(c.device_by_index(9), Err(EnumError::InvalidDeviceIndex(9))));
}

#[test]
fn catalog_finds_by_name_ignoring_case() {
    let c = catalog();
    assert_eq!(c.find_device_by_name("usb speakers").unwrap().device_index, 0);
    assert_eq!(c.find_device_by_name("INTERFACE").unwrap().device_index, 1);
    assert_eq!(c.find_device_by_name("mic").unwrap().device_index, 2);
    match c.find_device_by_name("Theremin") {
        Err(EnumError::DeviceNotFound(n)) => assert_eq!(n, "Theremin"),
        other => panic!("unexpected {:?}", other),
    }
}

#[test]
fn preferred_host_falls_back_to_default() {
    let mut c = catalog();
    assert_eq!(c.preferred_host().id, HostId::Alsa);
    c.hosts[1].is_available = true;
    assert_eq!(c.preferred_host().id, HostId::Jack);
}
