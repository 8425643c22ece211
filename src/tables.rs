use vstd::prelude::*;

verus! {

/// Samples in one cycle of every wavetable (a power of two).
pub const TABLE_SIZE: usize = 8192;

/// `TABLE_SIZE - 1`: masking a position with it wraps it into the table.
pub const TABLE_MASK: usize = 8191;

/// The four periodic shapes a wavetable can hold.
#[derive(Clone, Copy, Debug, PartialEq, Eq, Structural)]
pub enum WaveformType {
    Sine,
    Triangle,
    Sawtooth,
    Square,
}

/// Wraps a table position into `[0, TABLE_SIZE)`.
pub fn wrap_index(position: usize) -> (r: usize)
    ensures
        r == position % TABLE_SIZE,
        r < TABLE_SIZE,
{
    let r = position & TABLE_MASK;
    proof {
        assert(position & 8191usize == position % 8192usize) by (bit_vector);
    }
    r
}

/// One cycle of each waveform, `TABLE_SIZE` samples apiece, built once and
/// read only afterwards.
pub struct Wavetables<S> {
    sine: Vec<S>,
    triangle: Vec<S>,
    sawtooth: Vec<S>,
    square: Vec<S>,
}

impl<S: Copy> Wavetables<S> {
    /// The samples of one waveform's table.
    pub closed spec fn samples(&self, waveform: WaveformType) -> Seq<S> {
        match waveform {
            WaveformType::Sine => self.sine@,
            WaveformType::Triangle => self.triangle@,
            WaveformType::Sawtooth => self.sawtooth@,
            WaveformType::Square => self.square@,
        }
    }

    /// Every table holds exactly one cycle of `TABLE_SIZE` samples.
    pub open spec fn wf(&self) -> bool {
        forall|w: WaveformType| #[trigger] self.samples(w).len() == TABLE_SIZE
    }

    /// The table of `waveform`.
    pub fn table(&self, waveform: WaveformType) -> (r: &Vec<S>)
        ensures
            r@ == self.samples(waveform),
    {
        match waveform {
            WaveformType::Sine => &self.sine,
            WaveformType::Triangle => &self.triangle,
            WaveformType::Sawtooth => &self.sawtooth,
            WaveformType::Square => &self.square,
        }
    }

    /// Nearest-sample lookup: the sample at `position` wrapped into the table.
    pub fn fast_sample(&self, waveform: WaveformType, position: usize) -> (r: S)
        requires
            self.wf(),
        ensures
            r == self.samples(waveform)[(position % TABLE_SIZE) as int],
    {
        let t = self.table(waveform);
        assert(t@.len() == TABLE_SIZE);
        t[wrap_index(position)]
    }

    /// The two samples that interpolation blends at `position`: the one at the
    /// wrapped position and its successor, wrapping past the table's end.
    pub fn neighbor_samples(&self, waveform: WaveformType, position: usize) -> (r: (S, S))
        requires
            self.wf(),
        ensures
            r.0 == self.samples(waveform)[(position % TABLE_SIZE) as int],
            r.1 == self.samples(waveform)[((position % TABLE_SIZE) as int + 1) % (TABLE_SIZE as int)],
    {
        let t = self.table(waveform);
        assert(t@.len() == TABLE_SIZE);
        let i = wrap_index(position);
        let j = wrap_index(i + 1);
        (t[i], t[j])
    }
}

/// One table of `TABLE_SIZE` samples; sample `i` is `shape(waveform, i)`.
fn build_table<S, F: Fn(WaveformType, usize) -> S>(shape: &F, waveform: WaveformType) -> (r: Vec<S>)
    requires
        forall|i: usize| i < TABLE_SIZE ==> shape.requires((waveform, i)),
    ensures
        r@.len() == TABLE_SIZE,
        forall|i: int| 0 <= i < TABLE_SIZE ==> shape.ensures((waveform, i as usize), #[trigger] r@[i]),
{
    let mut table: Vec<S> = Vec::with_capacity(TABLE_SIZE);
    let mut i: usize = 0;
    while i < TABLE_SIZE
        invariant
            i <= TABLE_SIZE,
            table@.len() == i,
            forall|j: usize| j < TABLE_SIZE ==> shape.requires((waveform, j)),
            forall|j: int| 0 <= j < i ==> shape.ensures((waveform, j as usize), #[trigger] table@[j]),
        decreases TABLE_SIZE - i,
    {
        let sample = shape(waveform, i);
        table.push(sample);
        i = i + 1;
    }
    table
}

/// Builds the four wavetables once, at start-up; sample `i` of the table of
/// waveform `w` is `shape(w, i)`, the value of `w` at phase `i / TABLE_SIZE`.
pub fn init_tables<S: Copy, F: Fn(WaveformType, usize) -> S>(shape: F) -> (r: Wavetables<S>)
    requires
        forall|w: WaveformType, i: usize| i < TABLE_SIZE ==> shape.requires((w, i)),
    ensures
        r.wf(),
        forall|w: WaveformType, i: int| 0 <= i < TABLE_SIZE
            ==> shape.ensures((w, i as usize), #[trigger] r.samples(w)[i]),
{
    let r = Wavetables {
        sine: build_table(&shape, WaveformType::Sine),
        triangle: build_table(&shape, WaveformType::Triangle),
        sawtooth: build_table(&shape, WaveformType::Sawtooth),
        square: build_table(&shape, WaveformType::Square),
    };
    assert forall|w: WaveformType| #[trigger] r.samples(w).len() == TABLE_SIZE by {
        match w {
            WaveformType::Sine => {},
            WaveformType::Triangle => {},
            WaveformType::Sawtooth => {},
            WaveformType::Square => {},
        }
    }
    r
}

} // verus!
