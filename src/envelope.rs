use vstd::prelude::*;

verus! {

/// States of the attack-decay-sustain-release envelope.
#[derive(Clone, Copy, Debug, PartialEq, Eq, Structural)]
pub enum EnvelopeState {
    Idle,
    Attack,
    Decay,
    Sustain,
    Release,
    Finished,
}

/// The gain an envelope step produces, in exact symbolic form.
///
/// With `s` the sustain level and `v0` the gain held when the release began:
/// `Silent` is 0, `Full` is 1, `SustainLevel` is `s`,
/// `Rising` is `position / length`,
/// `Falling` is `1 - (position / length) * (1 - s)`,
/// `Releasing` is `v0 * (1 - position / length)`.
#[derive(Clone, Copy, Debug, PartialEq, Eq, Structural)]
pub enum EnvelopeLevel {
    Silent,
    Full,
    SustainLevel,
    Rising { position: u32, length: u32 },
    Falling { position: u32, length: u32 },
    Releasing { position: u32, length: u32 },
}

impl EnvelopeLevel {
    /// Every ramp stands strictly before its end, so that each gain lies in
    /// `[0, 1]` when the sustain level and the release start do.
    pub open spec fn wf(self) -> bool {
        match self {
            EnvelopeLevel::Rising { position, length } => position < length,
            EnvelopeLevel::Falling { position, length } => position < length,
            EnvelopeLevel::Releasing { position, length } => position < length,
            _ => true,
        }
    }
}

/// What an envelope state machine holds, as plain values.
pub struct AdsrModel {
    pub state: EnvelopeState,
    pub attack_samples: u32,
    pub decay_samples: u32,
    pub release_samples: u32,
    pub position: u32,
    pub note_held: bool,
    pub released: bool,
}

/// Whether a state produces sound.
pub open spec fn state_is_active(s: EnvelopeState) -> bool {
    s != EnvelopeState::Idle && s != EnvelopeState::Finished
}

/// A ramp of `length` steps that stands at `position` ends at this step.
pub open spec fn ramp_ends(position: u32, length: u32) -> bool {
    length == 0 || position >= length - 1
}

/// One step of the envelope: the next model and the gain produced.
pub open spec fn adsr_step(m: AdsrModel) -> (AdsrModel, EnvelopeLevel) {
    match m.state {
        EnvelopeState::Attack => if ramp_ends(m.position, m.attack_samples) {
            (AdsrModel { state: EnvelopeState::Decay, position: 0, ..m }, EnvelopeLevel::Full)
        } else {
            (
                AdsrModel { position: (m.position + 1) as u32, ..m },
                EnvelopeLevel::Rising { position: m.position, length: m.attack_samples },
            )
        },
        EnvelopeState::Decay => if ramp_ends(m.position, m.decay_samples) {
            (AdsrModel { state: EnvelopeState::Sustain, ..m }, EnvelopeLevel::SustainLevel)
        } else {
            (
                AdsrModel { position: (m.position + 1) as u32, ..m },
                EnvelopeLevel::Falling { position: m.position, length: m.decay_samples },
            )
        },
        EnvelopeState::Sustain => (m, EnvelopeLevel::SustainLevel),
        EnvelopeState::Release => if ramp_ends(m.position, m.release_samples) {
            (AdsrModel { state: EnvelopeState::Finished, ..m }, EnvelopeLevel::Silent)
        } else {
            (
                AdsrModel { position: (m.position + 1) as u32, ..m },
                EnvelopeLevel::Releasing { position: m.position, length: m.release_samples },
            )
        },
        _ => (m, EnvelopeLevel::Silent),
    }
}

/// The state machine of an attack-decay-sustain-release envelope, counted in
/// samples. Attack ramps 0 to 1, decay ramps 1 to the sustain level, sustain
/// holds until the note is released, release ramps to 0 and finishes.
#[derive(Clone, Debug)]
pub struct AdsrMachine {
    state: EnvelopeState,
    attack_samples: u32,
    decay_samples: u32,
    release_samples: u32,
    position: u32,
    note_held: bool,
    released: bool,
}

impl View for AdsrMachine {
    type V = AdsrModel;

    closed spec fn view(&self) -> AdsrModel {
        AdsrModel {
            state: self.state,
            attack_samples: self.attack_samples,
            decay_samples: self.decay_samples,
            release_samples: self.release_samples,
            position: self.position,
            note_held: self.note_held,
            released: self.released,
        }
    }
}

impl AdsrMachine {
    /// An idle envelope whose ramps are all zero samples long.
    pub fn new() -> (r: AdsrMachine)
        ensures
            r@ == (AdsrModel {
                state: EnvelopeState::Idle,
                attack_samples: 0,
                decay_samples: 0,
                release_samples: 0,
                position: 0,
                note_held: false,
                released: false,
            }),
    {
        AdsrMachine {
            state: EnvelopeState::Idle,
            attack_samples: 0,
            decay_samples: 0,
            release_samples: 0,
            position: 0,
            note_held: false,
            released: false,
        }
    }

    /// Sets the length of each ramp in samples; the state and position stay.
    pub fn set_sample_counts(&mut self, attack_samples: u32, decay_samples: u32, release_samples: u32)
        ensures
            final(self)@ == (AdsrModel { attack_samples, decay_samples, release_samples, ..old(self)@ }),
    {
        self.attack_samples = attack_samples;
        self.decay_samples = decay_samples;
        self.release_samples = release_samples;
    }

    /// Starts a note: the attack begins from its first sample.
    pub fn note_on(&mut self)
        ensures
            final(self)@ == (AdsrModel {
                state: EnvelopeState::Attack,
                position: 0,
                note_held: true,
                released: false,
                ..old(self)@
            }),
    {
        self.note_held = true;
        self.released = false;
        self.state = EnvelopeState::Attack;
        self.position = 0;
    }

    /// Releases a held note. Returns whether a release began; without a held
    /// note, or once released, nothing changes.
    pub fn note_off(&mut self) -> (r: bool)
        ensures
            r == (old(self)@.note_held && !old(self)@.released),
            r ==> final(self)@ == (AdsrModel {
                state: EnvelopeState::Release,
                position: 0,
                note_held: false,
                released: true,
                ..old(self)@
            }),
            !r ==> final(self)@ == old(self)@,
    {
        if self.note_held && !self.released {
            self.note_held = false;
            self.released = true;
            self.state = EnvelopeState::Release;
            self.position = 0;
            true
        } else {
            false
        }
    }

    /// Computes one sample of the envelope and advances it.
    pub fn step(&mut self) -> (r: EnvelopeLevel)
        ensures
            (final(self)@, r) == adsr_step(old(self)@),
            r.wf(),
            old(self)@.state == EnvelopeState::Finished ==> r == EnvelopeLevel::Silent
                && final(self)@.state == EnvelopeState::Finished,
    {
        match self.state {
            EnvelopeState::Attack => {
                if self.attack_samples == 0 || self.position >= self.attack_samples - 1 {
                    self.state = EnvelopeState::Decay;
                    self.position = 0;
                    EnvelopeLevel::Full
                } else {
                    let position = self.position;
                    self.position = position + 1;
                    EnvelopeLevel::Rising { position, length: self.attack_samples }
                }
            },
            EnvelopeState::Decay => {
                if self.decay_samples == 0 || self.position >= self.decay_samples - 1 {
                    self.state = EnvelopeState::Sustain;
                    EnvelopeLevel::SustainLevel
                } else {
                    let position = self.position;
                    self.position = position + 1;
                    EnvelopeLevel::Falling { position, length: self.decay_samples }
                }
            },
            EnvelopeState::Sustain => EnvelopeLevel::SustainLevel,
            EnvelopeState::Release => {
                if self.release_samples == 0 || self.position >= self.release_samples - 1 {
                    self.state = EnvelopeState::Finished;
                    EnvelopeLevel::Silent
                } else {
                    let position = self.position;
                    self.position = position + 1;
                    EnvelopeLevel::Releasing { position, length: self.release_samples }
                }
            },
            _ => EnvelopeLevel::Silent,
        }
    }

    /// Whether the envelope is neither idle nor finished.
    pub fn is_active(&self) -> (r: bool)
        ensures
            r == state_is_active(self@.state),
    {
        match self.state {
            EnvelopeState::Idle | EnvelopeState::Finished => false,
            _ => true,
        }
    }

    /// Whether the release has run out.
    pub fn is_finished(&self) -> (r: bool)
        ensures
            r == (self@.state == EnvelopeState::Finished),
    {
        self.state == EnvelopeState::Finished
    }

    /// The current state.
    pub fn state(&self) -> (r: EnvelopeState)
        ensures
            r == self@.state,
    {
        self.state
    }

    /// Back to idle with no note held; the ramp lengths stay.
    pub fn reset(&mut self)
        ensures
            final(self)@ == (AdsrModel {
                state: EnvelopeState::Idle,
                position: 0,
                note_held: false,
                released: false,
                ..old(self)@
            }),
    {
        self.state = EnvelopeState::Idle;
        self.position = 0;
        self.note_held = false;
        self.released = false;
    }

    /// Length of the attack ramp in samples.
    pub fn attack_samples(&self) -> (r: u32)
        ensures
            r == self@.attack_samples,
    {
        self.attack_samples
    }

    /// Length of the decay ramp in samples.
    pub fn decay_samples(&self) -> (r: u32)
        ensures
            r == self@.decay_samples,
    {
        self.decay_samples
    }

    /// Length of the release ramp in samples.
    pub fn release_samples(&self) -> (r: u32)
        ensures
            r == self@.release_samples,
    {
        self.release_samples
    }
}

/// The model after `n` steps.
pub open spec fn adsr_after(m: AdsrModel, n: nat) -> AdsrModel
    decreases n,
{
    if n == 0 { m } else { adsr_step(adsr_after(m, (n - 1) as nat)).0 }
}

/// Length of the ramp that a state runs, in samples.
pub open spec fn ramp_length(m: AdsrModel) -> u32 {
    match m.state {
        EnvelopeState::Attack => m.attack_samples,
        EnvelopeState::Decay => m.decay_samples,
        EnvelopeState::Release => m.release_samples,
        _ => 0,
    }
}

/// The state a ramp leads to.
pub open spec fn state_after_ramp(s: EnvelopeState) -> EnvelopeState {
    match s {
        EnvelopeState::Attack => EnvelopeState::Decay,
        EnvelopeState::Decay => EnvelopeState::Sustain,
        EnvelopeState::Release => EnvelopeState::Finished,
        _ => s,
    }
}

/// Whether a state is one of the three ramps.
pub open spec fn is_ramp(s: EnvelopeState) -> bool {
    s == EnvelopeState::Attack || s == EnvelopeState::Decay || s == EnvelopeState::Release
}

proof fn lemma_ramp_prefix(m: AdsrModel, k: nat)
    requires
        is_ramp(m.state),
        m.position == 0,
        k < ramp_length(m),
    ensures
        adsr_after(m, k) == (AdsrModel { position: k as u32, ..m }),
    decreases k,
{
    if k > 0 {
        lemma_ramp_prefix(m, (k - 1) as nat);
    }
}

/// A ramp lasts exactly its length in samples, or one sample when its length
/// is zero: started at its first sample, an attack, decay or release keeps
/// its state through the steps before its last one, each producing a ramp
/// gain, and its last step produces the end gain (1 after the attack, the
/// sustain level after the decay, 0 after the release) and enters the next
/// state.
pub proof fn lemma_ramp_duration(m: AdsrModel)
    requires
        is_ramp(m.state),
        m.position == 0,
    ensures
        ({
            let n: nat = if ramp_length(m) == 0 { 1 } else { ramp_length(m) as nat };
            &&& forall|k: nat| k + 1 < n ==> (#[trigger] adsr_after(m, k)).state == m.state
                && !(adsr_step(adsr_after(m, k)).1 is Full || adsr_step(adsr_after(m, k)).1 is SustainLevel
                    || adsr_step(adsr_after(m, k)).1 is Silent)
            &&& adsr_after(m, n).state == state_after_ramp(m.state)
            &&& adsr_step(adsr_after(m, (n - 1) as nat)).1 == match m.state {
                EnvelopeState::Attack => EnvelopeLevel::Full,
                EnvelopeState::Decay => EnvelopeLevel::SustainLevel,
                _ => EnvelopeLevel::Silent,
            }
        }),
{
    let n: nat = if ramp_length(m) == 0 { 1 } else { ramp_length(m) as nat };
    assert forall|k: nat| k + 1 < n implies (#[trigger] adsr_after(m, k)).state == m.state
        && !(adsr_step(adsr_after(m, k)).1 is Full || adsr_step(adsr_after(m, k)).1 is SustainLevel
            || adsr_step(adsr_after(m, k)).1 is Silent) by {
        lemma_ramp_prefix(m, k);
    }
    if ramp_length(m) > 0 {
        lemma_ramp_prefix(m, (n - 1) as nat);
    }
    assert(adsr_after(m, n) == adsr_step(adsr_after(m, (n - 1) as nat)).0);
}

/// Once finished, an envelope stays finished and silent for any number of
/// steps.
pub proof fn lemma_finished_stays_silent(m: AdsrModel, n: nat)
    requires
        m.state == EnvelopeState::Finished,
    ensures
        adsr_after(m, n) == m,
        adsr_step(adsr_after(m, n)).1 == EnvelopeLevel::Silent,
    decreases n,
{
    if n > 0 {
        lemma_finished_stays_silent(m, (n - 1) as nat);
    }
}

/// The gain of a linear ramp step: `Progress` is `start + (position / length) * (end - start)`
/// with `position < length`; `End` is `end`.
#[derive(Clone, Copy, Debug, PartialEq, Eq, Structural)]
pub enum RampLevel {
    Progress { position: u32, length: u32 },
    End,
}

/// The counter of a linear fade of a fixed number of samples.
pub struct LinearRamp {
    duration_samples: u32,
    current_sample: u32,
    finished: bool,
}

impl LinearRamp {
    /// The fade's length in samples.
    pub closed spec fn length(&self) -> u32 {
        self.duration_samples
    }

    /// Steps taken so far, up to the length.
    pub closed spec fn position(&self) -> u32 {
        self.current_sample
    }

    /// Whether the end value has been reached.
    pub closed spec fn done(&self) -> bool {
        self.finished
    }

    /// A fade of `duration_samples` samples, at its start.
    pub fn new(duration_samples: u32) -> (r: LinearRamp)
        ensures
            r.length() == duration_samples,
            r.position() == 0,
            !r.done(),
    {
        LinearRamp { duration_samples, current_sample: 0, finished: false }
    }

    /// One sample of the fade: the steps before the length give the ramp's
    /// positions in turn, every later step gives the end value.
    pub fn step(&mut self) -> (r: RampLevel)
        ensures
            final(self).length() == old(self).length(),
            !old(self).done() && old(self).position() < old(self).length() ==> {
                &&& r == (RampLevel::Progress { position: old(self).position(), length: old(self).length() })
                &&& final(self).position() == old(self).position() + 1
                &&& !final(self).done()
            },
            old(self).done() || old(self).position() >= old(self).length() ==> {
                &&& r == RampLevel::End
                &&& final(self).position() == old(self).position()
                &&& final(self).done()
            },
    {
        if self.finished {
            return RampLevel::End;
        }
        if self.current_sample >= self.duration_samples {
            self.finished = true;
            RampLevel::End
        } else {
            let position = self.current_sample;
            self.current_sample = position + 1;
            RampLevel::Progress { position, length: self.duration_samples }
        }
    }

    /// Whether the end value has been reached.
    pub fn is_finished(&self) -> (r: bool)
        ensures
            r == self.done(),
    {
        self.finished
    }

    /// Back to the start of the fade.
    pub fn reset(&mut self)
        ensures
            final(self).length() == old(self).length(),
            final(self).position() == 0,
            !final(self).done(),
    {
        self.current_sample = 0;
        self.finished = false;
    }
}

} // verus!
