use vstd::prelude::*;

verus! {

/// Multiplier of the linear-congruential update.
pub const LCG_MULTIPLIER: u32 = 1664525;

/// Increment of the linear-congruential update.
pub const LCG_INCREMENT: u32 = 1013904223;

/// One step of the generator: `state * 1664525 + 1013904223` modulo 2^32.
#[verifier::opaque]
pub open spec fn lcg_step(state: u32) -> u32 {
    ((state as int * LCG_MULTIPLIER as int + LCG_INCREMENT as int) % 0x1_0000_0000) as u32
}

/// The state a seed starts from: a zero seed is replaced by one.
pub open spec fn seed_state(seed: u32) -> u32 {
    if seed == 0 { 1 } else { seed }
}

/// The first `n` values drawn from a generator whose state is `state`.
pub open spec fn draw_sequence(state: u32, n: nat) -> Seq<u32>
    decreases n,
{
    if n == 0 {
        Seq::empty()
    } else {
        seq![lcg_step(state)] + draw_sequence(lcg_step(state), (n - 1) as nat)
    }
}

/// Fast deterministic pseudo-random generator (multiplicative
/// linear-congruential) used by every noise source.
pub struct FastRng {
    state: u32,
}

impl View for FastRng {
    type V = u32;

    closed spec fn view(&self) -> u32 {
        self.state
    }
}

impl FastRng {
    /// A generator seeded with `seed`; zero is replaced by one.
    pub fn new(seed: u32) -> (r: FastRng)
        ensures
            r@ == seed_state(seed),
    {
        FastRng { state: if seed == 0 { 1 } else { seed } }
    }

    /// Advances the generator and returns the new state.
    pub fn next_u32(&mut self) -> (r: u32)
        ensures
            r == lcg_step(old(self)@),
            final(self)@ == r,
    {
        let s = self.state;
        let m = s.wrapping_mul(LCG_MULTIPLIER);
        let n = m.wrapping_add(LCG_INCREMENT);
        proof {
            reveal(lcg_step);
            let p = s as int * LCG_MULTIPLIER as int;
            assert(m as int == p % 0x1_0000_0000);
            assert((p % 0x1_0000_0000 + LCG_INCREMENT as int) % 0x1_0000_0000
                == (p + LCG_INCREMENT as int) % 0x1_0000_0000) by (nonlinear_arith);
        }
        self.state = n;
        n
    }
}

/// The generator's state after `k` steps from `state`.
pub open spec fn lcg_iter(state: u32, k: nat) -> u32
    decreases k,
{
    if k == 0 { state } else { lcg_step(lcg_iter(state, (k - 1) as nat)) }
}

proof fn lemma_lcg_iter_shift(state: u32, k: nat)
    ensures
        lcg_iter(lcg_step(state), k) == lcg_iter(state, k + 1),
    decreases k,
{
    if k > 0 {
        lemma_lcg_iter_shift(state, (k - 1) as nat);
        assert(lcg_iter(lcg_step(state), k) == lcg_step(lcg_iter(lcg_step(state), (k - 1) as nat)));
    }
    assert(lcg_iter(state, k + 1) == lcg_step(lcg_iter(state, k)));
}

proof fn lemma_draw_sequence_values(state: u32, n: nat)
    ensures
        draw_sequence(state, n).len() == n,
        forall|k: int| 0 <= k < n ==> #[trigger] draw_sequence(state, n)[k] == lcg_iter(state, (k + 1) as nat),
    decreases n,
{
    if n > 0 {
        let next = lcg_step(state);
        lemma_draw_sequence_values(next, (n - 1) as nat);
        assert forall|k: int| 0 <= k < n implies #[trigger] draw_sequence(state, n)[k] == lcg_iter(state, (k + 1) as nat) by {
            assert(draw_sequence(state, n) == seq![next] + draw_sequence(next, (n - 1) as nat));
            if k > 0 {
                assert(draw_sequence(state, n)[k] == draw_sequence(next, (n - 1) as nat)[k - 1]);
                assert(draw_sequence(next, (n - 1) as nat)[k - 1] == lcg_iter(next, k as nat));
                lemma_lcg_iter_shift(state, k as nat);
            } else {
                assert(lcg_iter(state, 1) == lcg_step(lcg_iter(state, 0)));
            }
        }
    }
}

/// Two generators built from the same seed yield the same values, draw for
/// draw, for any number of draws: draw `k` (from 0) of either is the seed's
/// starting state stepped `k + 1` times.
pub proof fn lemma_same_seed_same_draws(a: FastRng, b: FastRng, seed: u32, n: nat)
    requires
        a@ == seed_state(seed),
        b@ == seed_state(seed),
    ensures
        draw_sequence(a@, n).len() == n,
        draw_sequence(b@, n).len() == n,
        forall|k: int| 0 <= k < n ==> #[trigger] draw_sequence(a@, n)[k] == lcg_iter(seed_state(seed), (k + 1) as nat)
            && draw_sequence(b@, n)[k] == draw_sequence(a@, n)[k],
{
    lemma_draw_sequence_values(seed_state(seed), n);
}

/// The on/off gating of a burst-noise generator, counted in samples.
pub struct BurstGate {
    burst_duration: u32,
    burst_counter: u32,
}

impl BurstGate {
    /// Length of the latest burst.
    pub closed spec fn duration(&self) -> u32 {
        self.burst_duration
    }

    /// Samples left in the burst under way (0 when none is).
    pub closed spec fn remaining(&self) -> u32 {
        self.burst_counter
    }

    /// No burst under way.
    pub fn new() -> (r: BurstGate)
        ensures
            r.duration() == 0,
            r.remaining() == 0,
    {
        BurstGate { burst_duration: 0, burst_counter: 0 }
    }

    /// Whether a burst is under way, so that the next sample sounds without
    /// a trigger.
    pub fn in_burst(&self) -> (r: bool)
        ensures
            r == (self.remaining() > 0),
    {
        self.burst_counter > 0
    }

    /// One sample of gating; returns whether the sample sounds. A burst under
    /// way sounds and counts down, whatever `start` says. Otherwise
    /// `Some(d)` starts a burst of `d` further samples, and this one sounds;
    /// `None` leaves the sample silent.
    pub fn step(&mut self, start: Option<u32>) -> (sounds: bool)
        ensures
            old(self).remaining() > 0 ==> sounds && final(self).remaining() == old(self).remaining() - 1
                && final(self).duration() == old(self).duration(),
            old(self).remaining() == 0 ==> match start {
                Some(d) => sounds && final(self).remaining() == d && final(self).duration() == d,
                None => !sounds && final(self).remaining() == 0 && final(self).duration() == old(self).duration(),
            },
    {
        if self.burst_counter > 0 {
            self.burst_counter = self.burst_counter - 1;
            true
        } else {
            match start {
                Some(d) => {
                    self.burst_duration = d;
                    self.burst_counter = d;
                    true
                },
                None => false,
            }
        }
    }

    /// Ends any burst under way.
    pub fn reset(&mut self)
        ensures
            final(self).duration() == 0,
            final(self).remaining() == 0,
    {
        self.burst_duration = 0;
        self.burst_counter = 0;
    }
}

} // verus!
