use vstd::prelude::*;

verus! {

/// How a stereo position maps to a pair of channel gains: `Linear` keeps
/// their sum at one, `EqualPower` keeps the sum of their squares at one.
#[derive(Clone, Copy, Debug, PartialEq, Eq, Structural)]
pub enum PanLaw {
    Linear,
    EqualPower,
}

/// Number of buses a router keeps: at least one.
pub fn bus_count(requested: usize) -> (r: usize)
    ensures
        r == if requested == 0 { 1 } else { requested },
        r >= 1,
{
    if requested == 0 { 1 } else { requested }
}

/// The bus a source assigned to `bus` is mixed into: an index past the last
/// bus is clamped to the last one.
pub fn bus_for(bus: usize, num_buses: usize) -> (r: usize)
    requires
        num_buses > 0,
    ensures
        r == if bus < num_buses { bus } else { (num_buses - 1) as usize },
        r < num_buses,
{
    if bus < num_buses { bus } else { num_buses - 1 }
}

/// Whole frames in an interleaved buffer of `len` samples.
pub fn frames_in(len: usize, channels: usize) -> (r: usize)
    requires
        channels > 0,
    ensures
        r == len / channels,
        r * channels <= len,
{
    proof {
        vstd::arithmetic::div_mod::lemma_fundamental_div_mod(len as int, channels as int);
        let (n, c) = (len as int, channels as int);
        assert(n % c >= 0);
        assert((n / c) * c == c * (n / c)) by (nonlinear_arith);
    }
    len / channels
}

} // verus!
