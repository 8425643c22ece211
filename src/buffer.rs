use vstd::prelude::*;
use vstd::arithmetic::div_mod::lemma_fundamental_div_mod;

verus! {

/// Position in a planar block (one run of `stride` samples per channel) of
/// the sample that an interleaved buffer of `channels` channels holds at `k`.
pub open spec fn planar_position(k: int, channels: int, stride: int) -> int {
    (k % channels) * stride + k / channels
}

proof fn lemma_planar_position_bounds(k: int, channels: int, stride: int, frames: int)
    requires
        channels > 0,
        0 <= k < frames * channels,
        frames <= stride,
    ensures
        0 <= k % channels < channels,
        0 <= k / channels < frames,
        0 <= planar_position(k, channels, stride) < channels * stride,
{
    let c = k % channels;
    let i = k / channels;
    lemma_fundamental_div_mod(k, channels);
    assert(0 <= c < channels);
    assert(k == channels * i + c);
    assert(0 <= i < frames) by (nonlinear_arith)
        requires
            k == channels * i + c,
            0 <= c < channels,
            0 <= k < frames * channels,
    ;
    assert(0 <= c * stride + i < channels * stride) by (nonlinear_arith)
        requires
            0 <= c < channels,
            0 <= i < frames,
            frames <= stride,
    ;
}

proof fn lemma_planar_position_injective(j: int, k: int, channels: int, stride: int, frames: int)
    requires
        channels > 0,
        0 <= j < frames * channels,
        0 <= k < frames * channels,
        frames <= stride,
        j != k,
    ensures
        planar_position(j, channels, stride) != planar_position(k, channels, stride),
{
    lemma_planar_position_bounds(j, channels, stride, frames);
    lemma_planar_position_bounds(k, channels, stride, frames);
    lemma_fundamental_div_mod(j, channels);
    lemma_fundamental_div_mod(k, channels);
    let (cj, ij, ck, ik) = (j % channels, j / channels, k % channels, k / channels);
    assert(j == channels * ij + cj);
    assert(k == channels * ik + ck);
    if cj * stride + ij == ck * stride + ik {
        assert(cj == ck && ij == ik) by (nonlinear_arith)
            requires
                cj * stride + ij == ck * stride + ik,
                0 <= ij < stride,
                0 <= ik < stride,
                0 <= cj,
                0 <= ck,
        {
            if cj < ck {
                assert(cj * stride + stride <= ck * stride);
            } else if ck < cj {
                assert(ck * stride + stride <= cj * stride);
            }
        }
    }
}

/// Writes `silence` into every sample of `output`.
pub fn fill_silence<S: Copy>(output: &mut [S], silence: S)
    ensures
        final(output)@.len() == old(output)@.len(),
        forall|k: int| 0 <= k < final(output)@.len() ==> final(output)@[k] == silence,
{
    let n = output.len();
    let mut k: usize = 0;
    while k < n
        invariant
            n == output@.len(),
            n == old(output)@.len(),
            k <= n,
            forall|j: int| 0 <= j < k ==> output@[j] == silence,
        decreases n - k,
    {
        output[k] = silence;
        k = k + 1;
    }
}

/// Copies `frames` frames from a planar block, where channel `c` occupies
/// `planar[c * stride .. c * stride + frames]`, into the interleaved
/// `output`, frame by frame: sample `k` of `output` receives channel
/// `k % channels` at frame `k / channels`. Samples past
/// `frames * channels` are left as they were.
pub fn interleave<S: Copy>(planar: &[S], stride: usize, channels: usize, frames: usize, output: &mut [S])
    requires
        channels > 0,
        frames <= stride,
        planar@.len() >= channels * stride,
        old(output)@.len() >= frames * channels,
    ensures
        final(output)@.len() == old(output)@.len(),
        forall|k: int| 0 <= k < frames * channels
            ==> final(output)@[k] == planar@[planar_position(k, channels as int, stride as int)],
        forall|k: int| frames * channels <= k < old(output)@.len() ==> final(output)@[k] == old(output)@[k],
{
    let out_len = output.len();
    let planar_len = planar.len();
    assert(frames * channels <= out_len);
    let total = frames * channels;
    let mut k: usize = 0;
    while k < total
        invariant
            channels > 0,
            frames <= stride,
            planar@.len() >= channels * stride,
            planar_len == planar@.len(),
            total == frames * channels,
            output@.len() == old(output)@.len(),
            total <= output@.len(),
            k <= total,
            forall|j: int| 0 <= j < k ==> output@[j] == planar@[planar_position(j, channels as int, stride as int)],
            forall|j: int| total <= j < output@.len() ==> output@[j] == old(output)@[j],
        decreases total - k,
    {
        proof {
            lemma_planar_position_bounds(k as int, channels as int, stride as int, frames as int);
            assert(channels * stride <= planar@.len());
        }
        let c = k % channels;
        let i = k / channels;
        proof {
            assert(c * stride + i < channels * stride);
        }
        output[k] = planar[c * stride + i];
        k = k + 1;
    }
}

/// Copies `frames` interleaved frames of `channels` channels into a planar
/// block, where channel `c` occupies `planar[c * stride .. c * stride + frames]`:
/// sample `k` of `interleaved` lands at channel `k % channels`, frame
/// `k / channels`. Every other sample of `planar` is left as it was.
pub fn deinterleave<S: Copy>(interleaved: &[S], channels: usize, frames: usize, stride: usize, planar: &mut [S])
    requires
        channels > 0,
        frames <= stride,
        interleaved@.len() >= frames * channels,
        old(planar)@.len() >= channels * stride,
    ensures
        final(planar)@.len() == old(planar)@.len(),
        forall|k: int| 0 <= k < frames * channels
            ==> final(planar)@[planar_position(k, channels as int, stride as int)] == interleaved@[k],
        forall|p: int| 0 <= p < old(planar)@.len()
            && !(exists|k: int| 0 <= k < frames * channels && planar_position(k, channels as int, stride as int) == p)
            ==> final(planar)@[p] == old(planar)@[p],
{
    let in_len = interleaved.len();
    let planar_len = planar.len();
    assert(frames * channels <= in_len);
    let total = frames * channels;
    let mut k: usize = 0;
    while k < total
        invariant
            channels > 0,
            frames <= stride,
            planar@.len() >= channels * stride,
            planar_len == planar@.len(),
            interleaved@.len() >= total,
            total == frames * channels,
            planar@.len() == old(planar)@.len(),
            k <= total,
            forall|j: int| 0 <= j < k
                ==> planar@[planar_position(j, channels as int, stride as int)] == interleaved@[j],
            forall|p: int| 0 <= p < old(planar)@.len()
                && !(exists|j: int| 0 <= j < k && planar_position(j, channels as int, stride as int) == p)
                ==> planar@[p] == old(planar)@[p],
        decreases total - k,
    {
        proof {
            lemma_planar_position_bounds(k as int, channels as int, stride as int, frames as int);
        }
        let c = k % channels;
        let i = k / channels;
        proof {
            assert(c * stride + i < channels * stride);
        }
        let ghost before = planar@;
        planar[c * stride + i] = interleaved[k];
        proof {
            let pk = planar_position(k as int, channels as int, stride as int);
            assert(pk == c * stride + i);
            assert(planar@ == before.update(pk, interleaved@[k as int]));
            assert forall|j: int| 0 <= j < k + 1
                implies planar@[planar_position(j, channels as int, stride as int)] == interleaved@[j] by {
                let pj = planar_position(j, channels as int, stride as int);
                if j < k {
                    lemma_planar_position_injective(j, k as int, channels as int, stride as int, frames as int);
                    lemma_planar_position_bounds(j, channels as int, stride as int, frames as int);
                    assert(before[pj] == interleaved@[j]);
                    assert(planar@[pj] == before[pj]);
                } else {
                    assert(pj == pk);
                }
            }
            assert forall|p: int| 0 <= p < old(planar)@.len()
                && !(exists|j: int| 0 <= j < k + 1 && planar_position(j, channels as int, stride as int) == p)
                implies planar@[p] == old(planar)@[p] by {
                assert(p != pk);
                assert(!(exists|j: int| 0 <= j < k && planar_position(j, channels as int, stride as int) == p));
            }
        }
        k = k + 1;
    }
}

/// A source that renders silence and is always active.
pub struct SilenceSource;

impl SilenceSource {
    /// Writes `silence` into every sample of `output`.
    pub fn fill_buffer<S: Copy>(&mut self, output: &mut [S], silence: S)
        ensures
            final(output)@.len() == old(output)@.len(),
            forall|k: int| 0 <= k < final(output)@.len() ==> final(output)@[k] == silence,
    {
        fill_silence(output, silence);
    }

    /// Always true: silence never ends.
    pub fn is_active(&self) -> (r: bool)
        ensures
            r,
    {
        true
    }

    /// Nothing to reset.
    pub fn reset(&mut self) {
    }
}

} // verus!
