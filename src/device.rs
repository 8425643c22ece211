use vstd::prelude::*;

verus! {

/// Audio host back-ends that a device can belong to.
#[derive(Clone, Copy, Debug, PartialEq, Eq, Structural)]
pub enum HostId {
    Alsa,
    Jack,
}

/// Sample encodings a device stream can use.
#[derive(Clone, Copy, Debug, PartialEq, Eq, Structural)]
pub enum SampleFormat {
    I8,
    I16,
    I32,
    I64,
    U8,
    U16,
    U32,
    U64,
    F32,
    F64,
}

/// An audio host and whether it can be used here.
#[derive(Clone, Debug)]
pub struct HostInfo {
    pub id: HostId,
    pub name: String,
    pub is_available: bool,
    pub is_default: bool,
}

/// What a device reports it can do, as plain values.
#[derive(Clone, Debug)]
pub struct DeviceInfo {
    pub name: String,
    pub host_id: HostId,
    pub is_default: bool,
    pub is_input: bool,
    pub is_output: bool,
    pub supported_sample_rates: Vec<u32>,
    pub min_sample_rate: u32,
    pub max_sample_rate: u32,
    pub default_sample_rate: u32,
    pub supported_channels: Vec<u16>,
    pub max_channels: u16,
    pub default_channels: u16,
    pub supported_sample_formats: Vec<SampleFormat>,
    pub default_sample_format: SampleFormat,
    pub device_index: usize,
}

/// Failures of device discovery.
#[derive(Clone, Debug)]
pub enum EnumError {
    NoDevicesFound,
    DeviceNotFound(String),
    HostNotAvailable(String),
    QueryFailed(String),
    InvalidDeviceIndex(usize),
}

/// Whether `f` is among `formats`.
pub(crate) fn contains_format(formats: &Vec<SampleFormat>, f: SampleFormat) -> (r: bool)
    ensures
        r == formats@.contains(f),
{
    let mut i: usize = 0;
    while i < formats.len()
        invariant
            i <= formats@.len(),
            forall|j: int| 0 <= j < i ==> formats@[j] != f,
        decreases formats@.len() - i,
    {
        if formats[i] == f {
            return true;
        }
        i = i + 1;
    }
    false
}

/// Whether `c` is among `channels`.
pub(crate) fn contains_channels(channels: &Vec<u16>, c: u16) -> (r: bool)
    ensures
        r == channels@.contains(c),
{
    let mut i: usize = 0;
    while i < channels.len()
        invariant
            i <= channels@.len(),
            forall|j: int| 0 <= j < i ==> channels@[j] != c,
        decreases channels@.len() - i,
    {
        if channels[i] == c {
            return true;
        }
        i = i + 1;
    }
    false
}

/// One range of stream configurations that a device reports.
#[derive(Clone, Copy, Debug, PartialEq, Eq, Structural)]
pub struct ConfigRange {
    pub min_sample_rate: u32,
    pub max_sample_rate: u32,
    pub channels: u16,
    pub sample_format: SampleFormat,
}

/// The common rates that a device is listed as supporting when one of its
/// ranges holds them, in increasing order.
pub const COMMON_RATES: [u32; 11] = [8000, 11025, 16000, 22050, 32000, 44100, 48000, 88200, 96000, 176400, 192000];

/// What a device's configuration ranges add up to.
#[derive(Clone, Debug)]
pub struct RangeSummary {
    pub sample_rates: Vec<u32>,
    pub min_sample_rate: u32,
    pub max_sample_rate: u32,
    pub channels: Vec<u16>,
    pub max_channels: u16,
    pub sample_formats: Vec<SampleFormat>,
}

/// Some range in `rs` holds `rate`.
pub open spec fn some_range_holds(rs: Seq<ConfigRange>, rate: u32) -> bool {
    exists|i: int| 0 <= i < rs.len() && rs[i].min_sample_rate <= rate && rate <= rs[i].max_sample_rate
}

/// Each element of `s` is smaller than the next.
pub open spec fn increasing_u32(s: Seq<u32>) -> bool {
    forall|i: int, j: int| 0 <= i < j < s.len() ==> s[i] < s[j]
}

/// Each element of `s` is smaller than the next.
pub open spec fn increasing_u16(s: Seq<u16>) -> bool {
    forall|i: int, j: int| 0 <= i < j < s.len() ==> s[i] < s[j]
}

/// `f` first shows up in `rs` before `g` does.
pub open spec fn format_seen_before(rs: Seq<ConfigRange>, f: SampleFormat, g: SampleFormat) -> bool {
    exists|p: int| 0 <= p < rs.len() && #[trigger] rs[p].sample_format == f
        && forall|q: int| 0 <= q <= p ==> rs[q].sample_format != g
}

/// The formats of `rs` without repeats, in the order they first show up.
pub open spec fn formats_in_order(rs: Seq<ConfigRange>, fs: Seq<SampleFormat>) -> bool {
    &&& forall|f: SampleFormat| fs.contains(f) <==> exists|i: int| 0 <= i < rs.len() && rs[i].sample_format == f
    &&& forall|a: int, b: int| 0 <= a < b < fs.len() ==> format_seen_before(rs, fs[a], fs[b])
}

fn insert_channels(channels: &mut Vec<u16>, c: u16)
    requires
        increasing_u16(old(channels)@),
    ensures
        increasing_u16(final(channels)@),
        final(channels)@.contains(c),
        forall|x: u16| old(channels)@.contains(x) ==> final(channels)@.contains(x),
        forall|x: u16| final(channels)@.contains(x) ==> old(channels)@.contains(x) || x == c,
{
    let mut pos: usize = 0;
    while pos < channels.len() && channels[pos] < c
        invariant
            channels@ == old(channels)@,
            pos <= channels@.len(),
            forall|j: int| 0 <= j < pos ==> channels@[j] < c,
        decreases channels@.len() - pos,
    {
        pos = pos + 1;
    }
    if pos < channels.len() && channels[pos] == c {
        assert(channels@[pos as int] == c);
        return;
    }
    let ghost before = channels@;
    channels.insert(pos, c);
    proof {
        assert(channels@[pos as int] == c);
        assert forall|x: u16| channels@.contains(x) <==> (before.contains(x) || x == c) by {
            if channels@.contains(x) {
                let k = choose|k: int| 0 <= k < channels@.len() && channels@[k] == x;
                if k < pos {
                    assert(before[k] == x);
                } else if k > pos {
                    assert(before[k - 1] == x);
                }
            }
            if before.contains(x) {
                let k = choose|k: int| 0 <= k < before.len() && before[k] == x;
                if k < pos {
                    assert(channels@[k] == x);
                } else {
                    assert(channels@[k + 1] == x);
                }
            }
            if x == c {
                assert(channels@[pos as int] == c);
            }
        }
        assert(before == old(channels)@);
        assert forall|i: int, j: int| 0 <= i < j < channels@.len() implies channels@[i] < channels@[j] by {
            if j < pos {
                assert(channels@[i] == before[i] && channels@[j] == before[j]);
            } else if j == pos {
                assert(channels@[i] == before[i]);
            } else if i > pos {
                assert(channels@[i] == before[i - 1] && channels@[j] == before[j - 1]);
            } else if i == pos {
                assert(channels@[j] == before[j - 1]);
                assert(pos < before.len() ==> before[pos as int] >= c);
                assert(before[j - 1] >= before[pos as int]);
            } else {
                assert(channels@[i] == before[i] && channels@[j] == before[j - 1]);
            }
        }
    }
}

fn collect_channels(ranges: &Vec<ConfigRange>) -> (r: Vec<u16>)
    ensures
        increasing_u16(r@),
        forall|c: u16| r@.contains(c) <==> exists|i: int| 0 <= i < ranges@.len() && ranges@[i].channels == c,
{
    let mut channels: Vec<u16> = Vec::new();
    let mut i: usize = 0;
    while i < ranges.len()
        invariant
            i <= ranges@.len(),
            increasing_u16(channels@),
            forall|c: u16| channels@.contains(c) <==> exists|j: int| 0 <= j < i && ranges@[j].channels == c,
        decreases ranges@.len() - i,
    {
        let ghost old_channels = channels@;
        let c0 = ranges[i].channels;
        insert_channels(&mut channels, c0);
        assert forall|c: u16| channels@.contains(c) <==> exists|j: int| 0 <= j < i + 1 && ranges@[j].channels == c by {
            if c == c0 {
                assert(ranges@[i as int].channels == c);
            }
            if exists|j: int| 0 <= j < i + 1 && ranges@[j].channels == c {
                let j = choose|j: int| 0 <= j < i + 1 && ranges@[j].channels == c;
                if j < i {
                    assert(old_channels.contains(c));
                }
            }
        }
        i = i + 1;
    }
    channels
}

fn collect_formats(ranges: &Vec<ConfigRange>) -> (r: Vec<SampleFormat>)
    ensures
        formats_in_order(ranges@, r@),
{
    let mut formats: Vec<SampleFormat> = Vec::new();
    let mut i: usize = 0;
    while i < ranges.len()
        invariant
            i <= ranges@.len(),
            forall|f: SampleFormat| formats@.contains(f) <==> exists|j: int| 0 <= j < i && ranges@[j].sample_format == f,
            forall|a: int, b: int| 0 <= a < b < formats@.len() ==> format_seen_before(ranges@, formats@[a], formats@[b]),
        decreases ranges@.len() - i,
    {
        let g = ranges[i].sample_format;
        let ghost before = formats@;
        if !contains_format(&formats, g) {
            formats.push(g);
        }
        proof {
            assert forall|f: SampleFormat| formats@.contains(f)
                <==> exists|j: int| 0 <= j < i + 1 && ranges@[j].sample_format == f by {
                if f == g {
                    assert(ranges@[i as int].sample_format == f);
                    if !before.contains(g) {
                        assert(formats@[before.len() as int] == g);
                    }
                }
                if formats@.contains(f) && f != g {
                    let k = choose|k: int| 0 <= k < formats@.len() && formats@[k] == f;
                    if k < before.len() {
                        assert(before[k] == f);
                        assert(before.contains(f));
                    } else {
                        assert(formats@[k] == g);
                    }
                }
                if exists|j: int| 0 <= j < i + 1 && ranges@[j].sample_format == f {
                    let j = choose|j: int| 0 <= j < i + 1 && ranges@[j].sample_format == f;
                    if j < i {
                        assert(before.contains(f));
                        let k = choose|k: int| 0 <= k < before.len() && before[k] == f;
                        assert(formats@[k] == f);
                    } else {
                        assert(f == g);
                    }
                }
            }
            assert forall|a: int, b: int| 0 <= a < b < formats@.len()
                implies format_seen_before(ranges@, formats@[a], formats@[b]) by {
                if b >= before.len() {
                    let fa = before[a];
                    assert(before.contains(fa));
                    let p = choose|p: int| 0 <= p < i && ranges@[p].sample_format == fa;
                    assert forall|q: int| 0 <= q <= p implies ranges@[q].sample_format != g by {
                        if ranges@[q].sample_format == g {
                            assert(before.contains(g));
                        }
                    }
                }
            }
        }
        i = i + 1;
    }
    formats
}

proof fn lemma_common_rates_increasing()
    ensures
        forall|a: int, b: int| 0 <= a < b < 11 ==> COMMON_RATES[a] < COMMON_RATES[b],
{
}

fn held_common_rates(ranges: &Vec<ConfigRange>) -> (r: Vec<u32>)
    ensures
        increasing_u32(r@),
        forall|x: u32| r@.contains(x) <==> (COMMON_RATES@.contains(x) && some_range_holds(ranges@, x)),
{
    proof {
        lemma_common_rates_increasing();
    }
    let mut rates: Vec<u32> = Vec::new();
    let mut k: usize = 0;
    while k < 11
        invariant
            k <= 11,
            forall|a: int, b: int| 0 <= a < b < 11 ==> COMMON_RATES[a] < COMMON_RATES[b],
            increasing_u32(rates@),
            k < 11 ==> forall|j: int| 0 <= j < rates@.len() ==> rates@[j] < COMMON_RATES[k as int],
            forall|x: u32| rates@.contains(x) <==> (exists|m: int| 0 <= m < k && COMMON_RATES[m] == x)
                && some_range_holds(ranges@, x),
        decreases 11 - k,
    {
        let rate = COMMON_RATES[k];
        let mut held = false;
        let mut j: usize = 0;
        while j < ranges.len()
            invariant
                j <= ranges@.len(),
                held == exists|q: int| 0 <= q < j && ranges@[q].min_sample_rate <= rate && rate <= ranges@[q].max_sample_rate,
            decreases ranges@.len() - j,
        {
            if ranges[j].min_sample_rate <= rate && rate <= ranges[j].max_sample_rate {
                held = true;
            }
            j = j + 1;
        }
        let ghost before = rates@;
        if held {
            rates.push(rate);
        }
        proof {
            assert forall|x: u32| rates@.contains(x) <==> (exists|m: int| 0 <= m < k + 1 && COMMON_RATES[m] == x)
                && some_range_holds(ranges@, x) by {
                if rates@.contains(x) && x != rate {
                    let q = choose|q: int| 0 <= q < rates@.len() && rates@[q] == x;
                    assert(before[q] == x);
                }
                if (exists|m: int| 0 <= m < k + 1 && COMMON_RATES[m] == x) && some_range_holds(ranges@, x) {
                    let m = choose|m: int| 0 <= m < k + 1 && COMMON_RATES[m] == x;
                    if m < k {
                        assert(before.contains(x));
                        let q = choose|q: int| 0 <= q < before.len() && before[q] == x;
                        assert(rates@[q] == x);
                    } else {
                        assert(rates@[before.len() as int] == x);
                    }
                }
                if x == rate && rates@.contains(x) && !held {
                    let q = choose|q: int| 0 <= q < before.len() && before[q] == x;
                    assert(before[q] < COMMON_RATES[k as int]);
                }
            }
        }
        k = k + 1;
    }
    proof {
        assert forall|x: u32| COMMON_RATES@.contains(x) <==> exists|m: int| 0 <= m < 11 && COMMON_RATES[m] == x by {
            if COMMON_RATES@.contains(x) {
                let m = choose|m: int| 0 <= m < COMMON_RATES@.len() && COMMON_RATES@[m] == x;
                assert(COMMON_RATES[m] == x);
            }
            if exists|m: int| 0 <= m < 11 && COMMON_RATES[m] == x {
                let m = choose|m: int| 0 <= m < 11 && COMMON_RATES[m] == x;
                assert(COMMON_RATES@[m] == x);
            }
        }
    }
    rates
}

/// Folds a device's configuration ranges into what it supports: the common
/// rates some range holds (increasing), the lowest and highest rate bound
/// (`u32::MAX` and 0 with no range), the channel counts (increasing) and
/// their maximum (0 with no range), and the formats in the order they first
/// show up.
pub fn summarize_ranges(ranges: &Vec<ConfigRange>) -> (r: RangeSummary)
    ensures
        increasing_u32(r.sample_rates@),
        forall|x: u32| r.sample_rates@.contains(x) <==> (COMMON_RATES@.contains(x) && some_range_holds(ranges@, x)),
        forall|i: int| 0 <= i < ranges@.len() ==> r.min_sample_rate <= ranges@[i].min_sample_rate,
        ranges@.len() > 0 ==> exists|i: int| 0 <= i < ranges@.len() && r.min_sample_rate == ranges@[i].min_sample_rate,
        ranges@.len() == 0 ==> r.min_sample_rate == u32::MAX,
        forall|i: int| 0 <= i < ranges@.len() ==> ranges@[i].max_sample_rate <= r.max_sample_rate,
        ranges@.len() > 0 ==> exists|i: int| 0 <= i < ranges@.len() && r.max_sample_rate == ranges@[i].max_sample_rate,
        ranges@.len() == 0 ==> r.max_sample_rate == 0,
        increasing_u16(r.channels@),
        forall|c: u16| r.channels@.contains(c) <==> exists|i: int| 0 <= i < ranges@.len() && ranges@[i].channels == c,
        forall|i: int| 0 <= i < ranges@.len() ==> ranges@[i].channels <= r.max_channels,
        ranges@.len() > 0 ==> exists|i: int| 0 <= i < ranges@.len() && r.max_channels == ranges@[i].channels,
        ranges@.len() == 0 ==> r.max_channels == 0,
        formats_in_order(ranges@, r.sample_formats@),
{
    let mut min_sample_rate: u32 = u32::MAX;
    let mut max_sample_rate: u32 = 0;
    let mut max_channels: u16 = 0;
    let mut i: usize = 0;
    while i < ranges.len()
        invariant
            i <= ranges@.len(),
            forall|j: int| 0 <= j < i ==> min_sample_rate <= ranges@[j].min_sample_rate,
            i > 0 ==> exists|j: int| 0 <= j < i && min_sample_rate == ranges@[j].min_sample_rate,
            i == 0 ==> min_sample_rate == u32::MAX,
            forall|j: int| 0 <= j < i ==> ranges@[j].max_sample_rate <= max_sample_rate,
            i > 0 ==> exists|j: int| 0 <= j < i && max_sample_rate == ranges@[j].max_sample_rate,
            i == 0 ==> max_sample_rate == 0,
            forall|j: int| 0 <= j < i ==> ranges@[j].channels <= max_channels,
            i > 0 ==> exists|j: int| 0 <= j < i && max_channels == ranges@[j].channels,
            i == 0 ==> max_channels == 0,
        decreases ranges@.len() - i,
    {
        let range = ranges[i];
        if range.min_sample_rate < min_sample_rate || i == 0 {
            min_sample_rate = range.min_sample_rate;
        }
        if range.max_sample_rate > max_sample_rate || i == 0 {
            max_sample_rate = range.max_sample_rate;
        }
        if range.channels > max_channels || i == 0 {
            max_channels = range.channels;
        }
        i = i + 1;
    }
    RangeSummary {
        sample_rates: held_common_rates(ranges),
        min_sample_rate,
        max_sample_rate,
        channels: collect_channels(ranges),
        max_channels,
        sample_formats: collect_formats(ranges),
    }
}

/// What `str::to_lowercase` returns for a string: its lowercase form as
/// Unicode defines it (a function of the whole string, since a capital sigma
/// lowers differently at the end of a word).
pub uninterp spec fn lower_of(s: Seq<char>) -> Seq<char>;

/// Relies on str::to_lowercase: the result depends on the characters alone.
#[verifier::external_body]
fn lowercase(s: &str) -> (r: String)
    ensures
        r@ == lower_of(s@),
{
    s.to_lowercase()
}

/// `needle` occurs in `hay` as a contiguous run of characters.
pub open spec fn occurs_in(needle: Seq<char>, hay: Seq<char>) -> bool {
    exists|i: int| 0 <= i && i + needle.len() <= hay.len() && #[trigger] hay.subrange(i, i + needle.len()) == needle
}

/// Relies on str::contains with a `&str` pattern: true exactly when the
/// pattern occurs in the string.
#[verifier::external_body]
fn text_contains(hay: &str, needle: &str) -> (r: bool)
    ensures
        r == occurs_in(needle@, hay@),
{
    hay.contains(needle)
}

/// The default device of one direction: an output device when `output`,
/// else an input device.
pub open spec fn is_default_for(d: DeviceInfo, output: bool) -> bool {
    d.is_default && if output { d.is_output } else { d.is_input }
}

/// Position `i` is the first in `devices` whose entry satisfies `p`.
pub open spec fn first_such(devices: Seq<DeviceInfo>, i: int, p: spec_fn(DeviceInfo) -> bool) -> bool {
    0 <= i < devices.len() && p(devices[i]) && forall|j: int| 0 <= j < i ==> !p(#[trigger] devices[j])
}

/// The devices that discovery found, with the hosts it looked at.
#[derive(Clone, Debug)]
pub struct DeviceCatalog {
    pub hosts: Vec<HostInfo>,
    pub devices: Vec<DeviceInfo>,
}

impl DeviceCatalog {
    /// Positions of the hosts that can be used, in order.
    pub fn available_hosts(&self) -> (r: Vec<usize>)
        ensures
            forall|a: int, b: int| 0 <= a < b < r@.len() ==> r@[a] < r@[b],
            forall|i: usize| r@.contains(i) <==> i < self.hosts@.len() && self.hosts@[i as int].is_available,
    {
        let mut r: Vec<usize> = Vec::new();
        let mut i: usize = 0;
        while i < self.hosts.len()
            invariant
                i <= self.hosts@.len(),
                forall|a: int, b: int| 0 <= a < b < r@.len() ==> r@[a] < r@[b],
                forall|k: int| 0 <= k < r@.len() ==> r@[k] < i,
                forall|j: usize| r@.contains(j) <==> j < i && self.hosts@[j as int].is_available,
            decreases self.hosts@.len() - i,
        {
            let ghost before = r@;
            if self.hosts[i].is_available {
                r.push(i);
            }
            assert forall|j: usize| r@.contains(j) <==> j < i + 1 && self.hosts@[j as int].is_available by {
                if r@.contains(j) {
                    let k = choose|k: int| 0 <= k < r@.len() && r@[k] == j;
                    if k < before.len() {
                        assert(before[k] == j);
                        assert(before.contains(j));
                    }
                }
                if j < i && self.hosts@[j as int].is_available {
                    assert(before.contains(j));
                    let k = choose|k: int| 0 <= k < before.len() && before[k] == j;
                    assert(r@[k] == j);
                }
                if j == i && self.hosts@[j as int].is_available {
                    assert(r@[before.len() as int] == j);
                }
            }
            i = i + 1;
        }
        r
    }

    /// Positions of the output devices (`output`) or of the input devices, in order.
    pub fn devices_of(&self, output: bool) -> (r: Vec<usize>)
        ensures
            forall|a: int, b: int| 0 <= a < b < r@.len() ==> r@[a] < r@[b],
            forall|i: usize| r@.contains(i) <==> i < self.devices@.len()
                && (if output { self.devices@[i as int].is_output } else { self.devices@[i as int].is_input }),
    {
        let mut r: Vec<usize> = Vec::new();
        let mut i: usize = 0;
        while i < self.devices.len()
            invariant
                i <= self.devices@.len(),
                forall|a: int, b: int| 0 <= a < b < r@.len() ==> r@[a] < r@[b],
                forall|k: int| 0 <= k < r@.len() ==> r@[k] < i,
                forall|j: usize| r@.contains(j) <==> j < i
                    && (if output { self.devices@[j as int].is_output } else { self.devices@[j as int].is_input }),
            decreases self.devices@.len() - i,
        {
            let ghost before = r@;
            let wanted = if output { self.devices[i].is_output } else { self.devices[i].is_input };
            if wanted {
                r.push(i);
            }
            assert forall|j: usize| r@.contains(j) <==> j < i + 1
                && (if output { self.devices@[j as int].is_output } else { self.devices@[j as int].is_input }) by {
                if r@.contains(j) {
                    let k = choose|k: int| 0 <= k < r@.len() && r@[k] == j;
                    if k < before.len() {
                        assert(before[k] == j);
                        assert(before.contains(j));
                    }
                }
                if j < i && (if output { self.devices@[j as int].is_output } else { self.devices@[j as int].is_input }) {
                    assert(before.contains(j));
                    let k = choose|k: int| 0 <= k < before.len() && before[k] == j;
                    assert(r@[k] == j);
                }
                if j == i && wanted {
                    assert(r@[before.len() as int] == j);
                }
            }
            i = i + 1;
        }
        r
    }

    /// The first default device of one direction: output when `output`.
    pub fn default_device(&self, output: bool) -> (r: Result<&DeviceInfo, EnumError>)
        ensures
            r matches Ok(d) ==> exists|i: int| first_such(self.devices@, i, |x: DeviceInfo| is_default_for(x, output))
                && *d == self.devices@[i],
            r is Err <==> forall|j: int| 0 <= j < self.devices@.len() ==> !is_default_for(#[trigger] self.devices@[j], output),
            r matches Err(e) ==> e is NoDevicesFound,
    {
        let mut i: usize = 0;
        while i < self.devices.len()
            invariant
                i <= self.devices@.len(),
                forall|j: int| 0 <= j < i ==> !is_default_for(#[trigger] self.devices@[j], output),
            decreases self.devices@.len() - i,
        {
            let d = &self.devices[i];
            let hit = d.is_default && if output { d.is_output } else { d.is_input };
            if hit {
                assert(first_such(self.devices@, i as int, |x: DeviceInfo| is_default_for(x, output)));
                return Ok(d);
            }
            i = i + 1;
        }
        Err(EnumError::NoDevicesFound)
    }

    /// The first device whose discovery index is `index`.
    pub fn device_by_index(&self, index: usize) -> (r: Result<&DeviceInfo, EnumError>)
        ensures
            r matches Ok(d) ==> exists|i: int| first_such(self.devices@, i, |x: DeviceInfo| x.device_index == index)
                && *d == self.devices@[i],
            r is Err <==> forall|j: int| 0 <= j < self.devices@.len() ==> (#[trigger] self.devices@[j]).device_index != index,
            r matches Err(e) ==> e == EnumError::InvalidDeviceIndex(index),
    {
        let mut i: usize = 0;
        while i < self.devices.len()
            invariant
                i <= self.devices@.len(),
                forall|j: int| 0 <= j < i ==> (#[trigger] self.devices@[j]).device_index != index,
            decreases self.devices@.len() - i,
        {
            if self.devices[i].device_index == index {
                assert(first_such(self.devices@, i as int, |x: DeviceInfo| x.device_index == index));
                return Ok(&self.devices[i]);
            }
            i = i + 1;
        }
        Err(EnumError::InvalidDeviceIndex(index))
    }

    /// Finds a device by name, ignoring case: the first whose lowercased name
    /// equals the lowercased `name`, else the first whose lowercased name
    /// contains it.
    pub fn find_device_by_name(&self, name: &str) -> (r: Result<&DeviceInfo, EnumError>)
        ensures
            (exists|j: int| 0 <= j < self.devices@.len() && lower_of(self.devices@[j].name@) == lower_of(name@))
                ==> (r matches Ok(d) && exists|i: int|
                    first_such(self.devices@, i, |x: DeviceInfo| lower_of(x.name@) == lower_of(name@))
                    && *d == self.devices@[i]),
            !(exists|j: int| 0 <= j < self.devices@.len() && lower_of(self.devices@[j].name@) == lower_of(name@))
                ==> (r matches Ok(d) ==> exists|i: int|
                    first_such(self.devices@, i, |x: DeviceInfo| occurs_in(lower_of(name@), lower_of(x.name@)))
                    && *d == self.devices@[i]),
            r is Err <==> forall|j: int| 0 <= j < self.devices@.len()
                ==> !occurs_in(lower_of(name@), lower_of(#[trigger] self.devices@[j].name@))
                    && lower_of(self.devices@[j].name@) != lower_of(name@),
            r matches Err(e) ==> (e matches EnumError::DeviceNotFound(n) && n@ == name@),
    {
        let wanted = lowercase(name);
        let mut i: usize = 0;
        while i < self.devices.len()
            invariant
                wanted@ == lower_of(name@),
                i <= self.devices@.len(),
                forall|j: int| 0 <= j < i ==> lower_of((#[trigger] self.devices@[j]).name@) != lower_of(name@),
            decreases self.devices@.len() - i,
        {
            let candidate = lowercase(self.devices[i].name.as_str());
            if candidate == wanted {
                assert(first_such(self.devices@, i as int, |x: DeviceInfo| lower_of(x.name@) == lower_of(name@)));
                return Ok(&self.devices[i]);
            }
            i = i + 1;
        }
        let mut i: usize = 0;
        while i < self.devices.len()
            invariant
                wanted@ == lower_of(name@),
                i <= self.devices@.len(),
                forall|j: int| 0 <= j < self.devices@.len() ==> lower_of((#[trigger] self.devices@[j]).name@) != lower_of(name@),
                forall|j: int| 0 <= j < i ==> !occurs_in(lower_of(name@), lower_of((#[trigger] self.devices@[j]).name@)),
            decreases self.devices@.len() - i,
        {
            let candidate = lowercase(self.devices[i].name.as_str());
            if text_contains(candidate.as_str(), wanted.as_str()) {
                assert(first_such(self.devices@, i as int, |x: DeviceInfo| occurs_in(lower_of(name@), lower_of(x.name@))));
                return Ok(&self.devices[i]);
            }
            i = i + 1;
        }
        Err(EnumError::DeviceNotFound(name.to_string()))
    }

    /// The host to prefer: the first available JACK host, else the first
    /// default host.
    pub fn preferred_host(&self) -> (r: &HostInfo)
        requires
            exists|j: int| 0 <= j < self.hosts@.len() && (#[trigger] self.hosts@[j]).is_default,
        ensures
            (exists|j: int| 0 <= j < self.hosts@.len() && (#[trigger] self.hosts@[j]).id == HostId::Jack
                && self.hosts@[j].is_available) ==> exists|i: int| 0 <= i < self.hosts@.len()
                && *r == self.hosts@[i] && r.id == HostId::Jack && r.is_available
                && forall|j: int| 0 <= j < i ==> !((#[trigger] self.hosts@[j]).id == HostId::Jack && self.hosts@[j].is_available),
            !(exists|j: int| 0 <= j < self.hosts@.len() && (#[trigger] self.hosts@[j]).id == HostId::Jack
                && self.hosts@[j].is_available) ==> exists|i: int| 0 <= i < self.hosts@.len()
                && *r == self.hosts@[i] && r.is_default
                && forall|j: int| 0 <= j < i ==> !(#[trigger] self.hosts@[j]).is_default,
    {
        let mut i: usize = 0;
        while i < self.hosts.len()
            invariant
                i <= self.hosts@.len(),
                forall|j: int| 0 <= j < i ==> !((#[trigger] self.hosts@[j]).id == HostId::Jack && self.hosts@[j].is_available),
            decreases self.hosts@.len() - i,
        {
            if self.hosts[i].id == HostId::Jack && self.hosts[i].is_available {
                return &self.hosts[i];
            }
            i = i + 1;
        }
        let mut i: usize = 0;
        while i < self.hosts.len()
            invariant
                i <= self.hosts@.len(),
                forall|j: int| 0 <= j < self.hosts@.len() ==> !((#[trigger] self.hosts@[j]).id == HostId::Jack && self.hosts@[j].is_available),
                forall|j: int| 0 <= j < i ==> !(#[trigger] self.hosts@[j]).is_default,
                exists|j: int| 0 <= j < self.hosts@.len() && (#[trigger] self.hosts@[j]).is_default,
            decreases self.hosts@.len() - i,
        {
            if self.hosts[i].is_default {
                return &self.hosts[i];
            }
            i = i + 1;
        }
        proof {
            let j = choose|j: int| 0 <= j < self.hosts@.len() && (#[trigger] self.hosts@[j]).is_default;
            assert(!self.hosts@[j].is_default);
        }
        &self.hosts[0]
    }
}

} // verus!
