//! Channel normalization: interleaved multi-channel frames to one mono sample per frame.
use vstd::prelude::*;

verus! {

/// Division that rounds toward zero, as Rust's `/` does on signed integers.
pub open spec fn div_trunc(a: int, d: int) -> int
    recommends
        d > 0,
{
    if a >= 0 {
        a / d
    } else {
        -((-a) / d)
    }
}

/// Sum of the first `j` samples of frame `k`, where frames hold `n` samples each.
pub open spec fn frame_sum(s: Seq<i32>, n: nat, k: int, j: nat) -> int
    decreases j,
{
    if j == 0 {
        0
    } else {
        frame_sum(s, n, k, (j - 1) as nat) + s[k * n + j - 1]
    }
}

/// Arithmetic mean of frame `k` (rounded toward zero).
pub open spec fn frame_mean(s: Seq<i32>, n: nat, k: int) -> int {
    div_trunc(frame_sum(s, n, k, n), n as int)
}

/// The mono sequence of an interleaved buffer with `n` channels: one mean per full frame;
/// a trailing partial frame is dropped.
pub open spec fn mono_of(s: Seq<i32>, n: nat) -> Seq<i32>
    recommends
        n > 0,
{
    Seq::new(s.len() / n, |k: int| frame_mean(s, n, k) as i32)
}

proof fn lemma_frame_sum_bounds(s: Seq<i32>, n: nat, k: int, j: nat)
    requires
        0 <= k,
        k * n + j <= s.len(),
    ensures
        j * (i32::MIN as int) <= frame_sum(s, n, k, j) <= j * (i32::MAX as int),
    decreases j,
{
    if j > 0 {
        lemma_frame_sum_bounds(s, n, k, (j - 1) as nat);
    }
}

proof fn lemma_mean_in_range(sum: int, n: int)
    requires
        n > 0,
        n * (i32::MIN as int) <= sum <= n * (i32::MAX as int),
    ensures
        i32::MIN <= div_trunc(sum, n) <= i32::MAX,
{
    if sum >= 0 {
        assert(sum / n <= i32::MAX) by (nonlinear_arith)
            requires
                n > 0,
                0 <= sum <= n * (i32::MAX as int),
        ;
        assert(sum / n >= 0) by (nonlinear_arith)
            requires
                n > 0,
                0 <= sum,
        ;
    } else {
        assert((-sum) / n <= -(i32::MIN as int)) by (nonlinear_arith)
            requires
                n > 0,
                0 <= -sum <= n * (-(i32::MIN as int)),
        ;
        assert((-sum) / n >= 0) by (nonlinear_arith)
            requires
                n > 0,
                0 <= -sum,
        ;
    }
}

proof fn lemma_frame_index(k: int, n: int, j: int, len: int)
    requires
        n > 0,
        0 <= k < len / n,
        0 <= j < n,
        len >= 0,
    ensures
        0 <= k * n + j < len,
        k * n + n <= len,
{
    assert((k + 1) * n <= len) by (nonlinear_arith)
        requires
            n > 0,
            0 <= k < len / n,
            len >= 0,
    ;
    assert(0 <= k * n) by (nonlinear_arith)
        requires
            n > 0,
            0 <= k,
    ;
    assert((k + 1) * n == k * n + n) by (nonlinear_arith);
}

/// Normalizing with `n >= 1` channels gives one sample per full frame, each the exact mean of
/// its frame's samples (rounded toward zero).
pub proof fn lemma_mono_is_frame_mean(s: Seq<i32>, n: nat)
    requires
        n > 0,
    ensures
        mono_of(s, n).len() == s.len() / n,
        forall|k: int|
            0 <= k < s.len() / n ==> #[trigger] mono_of(s, n)[k] as int == frame_mean(s, n, k),
{
    assert forall|k: int| 0 <= k < s.len() / n implies #[trigger] mono_of(s, n)[k] as int
        == frame_mean(s, n, k) by {
        lemma_frame_index(k, n as int, 0, s.len() as int);
        lemma_frame_sum_bounds(s, n, k, n);
        lemma_mean_in_range(frame_sum(s, n, k, n), n as int);
    }
}

/// Averages each frame of an interleaved buffer with `channels` channels into one
/// mono sample. A channel count of zero is rejected with `None`.
pub fn to_mono(samples: &Vec<i32>, channels: usize) -> (r: Option<Vec<i32>>)
    ensures
        channels == 0 <==> r is None,
        r matches Some(v) ==> v@ == mono_of(samples@, channels as nat),
{
    if channels == 0 {
        return None;
    }
    let len: usize = samples.len();
    let frames: usize = len / channels;
    let mut out: Vec<i32> = Vec::with_capacity(frames);
    let mut k: usize = 0;
    while k < frames
        invariant
            channels > 0,
            len == samples@.len(),
            frames == samples@.len() / (channels as nat),
            k <= frames,
            out@.len() == k,
            forall|i: int|
                0 <= i < k ==> #[trigger] out@[i] == frame_mean(samples@, channels as nat, i) as i32,
        decreases frames - k,
    {
        proof {
            lemma_frame_index(k as int, channels as int, 0, samples@.len() as int);
        }
        let base: usize = k * channels;
        let mut sum: i128 = 0;
        let mut j: usize = 0;
        while j < channels
            invariant
                channels > 0,
                len == samples@.len(),
                k < frames,
                frames == samples@.len() / (channels as nat),
                base == k * channels,
                base + channels <= samples@.len(),
                j <= channels,
                sum as int == frame_sum(samples@, channels as nat, k as int, j as nat),
            decreases channels - j,
        {
            proof {
                lemma_frame_sum_bounds(samples@, channels as nat, k as int, j as nat);
                assert(j * (i32::MAX as int) <= 0x1_0000_0000_0000_0000 * 0x8000_0000) by (nonlinear_arith)
                    requires
                        j < 0x1_0000_0000_0000_0000,
                ;
                assert(j * (i32::MIN as int) >= -0x1_0000_0000_0000_0000 * 0x8000_0000) by (nonlinear_arith)
                    requires
                        j < 0x1_0000_0000_0000_0000,
                ;
            }
            sum = sum + samples[base + j] as i128;
            j = j + 1;
        }
        proof {
            lemma_frame_sum_bounds(samples@, channels as nat, k as int, channels as nat);
            lemma_mean_in_range(sum as int, channels as int);
        }
        let c: i128 = channels as i128;
        let mean: i128 = if sum >= 0 {
            sum / c
        } else {
            -((-sum) / c)
        };
        out.push(mean as i32);
        k = k + 1;
    }
    Some(out)
}

} // verus!
