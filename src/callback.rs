use vstd::prelude::*;
use std::sync::Arc;
use std::ops::DerefMut;
use std::sync::atomic::{AtomicU64, Ordering};
use crate::buffer::fill_silence;

verus! {

/// The spin lock of the `spin` crate, held as an opaque value.
#[verifier::external_type_specification]
#[verifier::external_body]
#[verifier::reject_recursive_types(T)]
#[verifier::reject_recursive_types(R)]
pub struct ExSpinMutex<T: ?Sized, R>(spin::mutex::Mutex<T, R>);

/// The guard that `spin`'s lock hands out while it is held.
#[verifier::external_type_specification]
#[verifier::external_body]
#[verifier::reject_recursive_types(T)]
pub struct ExSpinMutexGuard<'a, T: 'a + ?Sized>(spin::mutex::MutexGuard<'a, T>);

/// The default relax strategy of `spin`'s lock (busy spinning).
#[verifier::external_type_specification]
#[verifier::external_body]
pub struct ExSpin(spin::relax::Spin);

/// Relies on spin::mutex::Mutex::new: builds an unlocked lock around the value.
pub assume_specification<T, R>[ spin::mutex::Mutex::<T, R>::new ](value: T) -> spin::mutex::Mutex<T, R>;

/// Relies on spin::mutex::Mutex::try_lock: returns at once, with a guard when
/// the lock was free and `None` when it was held.
pub assume_specification<T: ?Sized, R>[ spin::mutex::Mutex::<T, R>::try_lock ](
    m: &spin::mutex::Mutex<T, R>,
) -> Option<spin::mutex::MutexGuard<'_, T>>;

/// Relies on spin::mutex::Mutex::lock: spins until the lock is free, then
/// returns its guard.
pub assume_specification<T: ?Sized, R: spin::relax::RelaxStrategy>[ spin::mutex::Mutex::<T, R>::lock ](
    m: &spin::mutex::Mutex<T, R>,
) -> spin::mutex::MutexGuard<'_, T>;

/// Relies on spin's `DerefMut` for its guard: exclusive access to the value
/// behind the lock while the guard lives.
pub assume_specification<'a, 'b, T: ?Sized>[ <spin::mutex::MutexGuard<'a, T> as core::ops::DerefMut>::deref_mut ](
    g: &'b mut spin::mutex::MutexGuard<'a, T>,
) -> &'b mut T;

/// A processor that the real-time thread runs once per period. It fills the
/// interleaved `output` (`frames * channels` samples) in place and must
/// neither block nor allocate.
pub trait AudioCallback<S, R>: Sized {
    /// What one period of this processor does: with the processor as it
    /// stood, `before` became `after` for the given rate, channels and frames.
    /// A processor that states nothing more keeps the buffer's length.
    open spec fn renders(&self, before: Seq<S>, after: Seq<S>, sample_rate: R, channels: usize, frames: usize) -> bool {
        after.len() == before.len()
    }

    fn process(&mut self, output: &mut [S], sample_rate: R, channels: usize, frames: usize)
        ensures
            old(self).renders(old(output)@, final(output)@, sample_rate, channels, frames),
    ;
}

/// A processor that writes silence.
pub struct SilentProcessor<S> {
    pub silence: S,
}

impl<S: Copy, R> AudioCallback<S, R> for SilentProcessor<S> {
    /// Every sample of `after` is the silence value, and the length stays.
    open spec fn renders(&self, before: Seq<S>, after: Seq<S>, sample_rate: R, channels: usize, frames: usize) -> bool {
        after.len() == before.len() && forall|k: int| 0 <= k < after.len() ==> after[k] == self.silence
    }

    fn process(&mut self, output: &mut [S], sample_rate: R, channels: usize, frames: usize) {
        fill_silence(output, self.silence);
    }
}

/// Holds one processor for the real-time thread. The real-time entry point
/// never waits: when a control thread holds the processor, the period is
/// filled with silence. A frame counter, advanced every period, is the
/// playback clock.
#[verifier::reject_recursive_types(P)]
pub struct CallbackSlot<P, S, R> {
    processor: Arc<spin::Mutex<P>>,
    sample_clock: Arc<AtomicU64>,
    silence: S,
    sample_rate: R,
    channels: usize,
}

impl<P, S: Copy, R: Copy> CallbackSlot<P, S, R> {
    /// The channel count that periods are split by.
    pub closed spec fn channel_count(&self) -> usize {
        self.channels
    }

    /// The rate handed to the processor.
    pub closed spec fn sample_rate_value(&self) -> R {
        self.sample_rate
    }

    /// The value written where a period falls back to silence.
    pub closed spec fn silence_value(&self) -> S {
        self.silence
    }

    /// A slot holding `initial_processor`, for periods of `channels` channels at
    /// `sample_rate`; `silence` is the sample written when a period is skipped.
    pub fn new(initial_processor: P, sample_rate: R, channels: usize, silence: S) -> (r: Self)
        ensures
            r.channel_count() == channels,
            r.silence_value() == silence,
            r.sample_rate_value() == sample_rate,
    {
        CallbackSlot {
            processor: Arc::new(spin::Mutex::new(initial_processor)),
            sample_clock: Arc::new(AtomicU64::new(0)),
            silence,
            sample_rate,
            channels,
        }
    }

    /// Replaces the processor, waiting for the real-time thread to let go of it.
    pub fn swap_processor(&self, new_processor: P) {
        let mut guard = self.processor.lock();
        *guard = new_processor;
    }

    /// Real-time entry point for one period of interleaved `output`.
    ///
    /// With fewer samples than one frame it does nothing and returns `false`.
    /// Otherwise it advances the frame clock by `output.len() / channels`, and
    /// either runs the processor on the whole buffer, with the slot's rate and
    /// channel count and that frame count, and returns `true`, or, when
    /// another thread holds the processor, fills the whole buffer with
    /// silence and returns `false`. It never waits.
    pub fn process_realtime(&self, output: &mut [S]) -> (ran: bool)
        where P: AudioCallback<S, R>,
        requires
            self.channel_count() > 0,
        ensures
            old(output)@.len() < self.channel_count() ==> !ran && final(output)@ == old(output)@,
            old(output)@.len() >= self.channel_count() && !ran ==> forall|k: int|
                0 <= k < final(output)@.len() ==> final(output)@[k] == self.silence_value(),
            ran ==> old(output)@.len() >= self.channel_count() && exists|p: P| #[trigger] p.renders(
                old(output)@,
                final(output)@,
                self.sample_rate_value(),
                self.channel_count(),
                (old(output)@.len() / (self.channel_count() as nat)) as usize,
            ),
    {
        let frames = output.len() / self.channels;
        proof {
            let (n, c) = (output@.len() as int, self.channels as int);
            assert(n / c == 0 <==> n < c) by (nonlinear_arith)
                requires
                    c > 0,
                    n >= 0,
            ;
        }
        if frames == 0 {
            return false;
        }
        self.sample_clock.fetch_add(frames as u64, Ordering::Relaxed);
        match self.processor.try_lock() {
            Some(mut guard) => {
                let processor: &mut P = guard.deref_mut();
                let ghost before: P = *processor;
                processor.process(output, self.sample_rate, self.channels, frames);
                assert(old(output)@.len() >= self.channel_count());
                assert(self.sample_rate_value() == self.sample_rate);
                assert(self.channel_count() == self.channels);
                assert(before.renders(
                    old(output)@,
                    output@,
                    self.sample_rate_value(),
                    self.channel_count(),
                    (old(output)@.len() / (self.channel_count() as nat)) as usize,
                ));
                assert(exists|p: P| #[trigger] p.renders(
                    old(output)@,
                    output@,
                    self.sample_rate_value(),
                    self.channel_count(),
                    (old(output)@.len() / (self.channel_count() as nat)) as usize,
                ));
                true
            },
            None => {
                fill_silence(output, self.silence);
                false
            },
        }
    }

    /// Frames counted by the playback clock so far.
    pub fn frame_count(&self) -> u64 {
        self.sample_clock.load(Ordering::Relaxed)
    }

    /// A shared handle on the lock that guards the processor.
    pub fn processor_handle(&self) -> Arc<spin::Mutex<P>> {
        Arc::clone(&self.processor)
    }

    /// The sample rate handed to the processor.
    pub fn sample_rate(&self) -> (r: R)
        ensures
            r == self.sample_rate_value(),
    {
        self.sample_rate
    }

    /// Sets the rate and channel count used by later periods.
    pub fn set_runtime_config(&mut self, sample_rate: R, channels: usize)
        ensures
            final(self).channel_count() == channels,
            final(self).sample_rate_value() == sample_rate,
            final(self).silence_value() == old(self).silence_value(),
    {
        self.sample_rate = sample_rate;
        self.channels = channels;
    }
}

impl<S: Copy, R: Copy> CallbackSlot<SilentProcessor<S>, S, R> {
    /// A slot whose processor writes silence.
    pub fn silent(sample_rate: R, channels: usize, silence: S) -> (r: Self)
        ensures
            r.channel_count() == channels,
            r.silence_value() == silence,
            r.sample_rate_value() == sample_rate,
    {
        Self::new(SilentProcessor { silence }, sample_rate, channels, silence)
    }
}

} // verus!
