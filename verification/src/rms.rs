//! RMS (root-mean-square) extraction over a window of samples.
//!
//! The magnitude of one cycle of current samples is
//! `sqrt(mean(x * x))`. Samples are fixed-point integers (milliamperes),
//! the squaring and summing are exact, and the square root is the
//! integer square root of the mean square: the unique `r` with
//! `r * r <= mean < (r + 1) * (r + 1)`.

use vstd::prelude::*;
use vstd::arithmetic::div_mod::lemma_div_multiples_vanish;

verus! {

/// Sum of the squares of the entries of `s`.
pub open spec fn sum_sq(s: Seq<int>) -> int
    decreases s.len(),
{
    if s.len() == 0 {
        0
    } else {
        sum_sq(s.drop_last()) + s.last() * s.last()
    }
}

/// `r` is the integer square root of `m`.
pub open spec fn is_isqrt(r: int, m: int) -> bool {
    &&& 0 <= r
    &&& r * r <= m
    &&& m < (r + 1) * (r + 1)
}

/// Largest magnitude a sample may carry: 2000 A in milliamperes. Keeps
/// the sum of squares within the accumulator for any window length.
pub const SAMPLE_LIMIT: i64 = 2_000_000_000;

/// The sum of squares never turns negative.
proof fn lemma_sum_sq_nonneg(s: Seq<int>)
    ensures
        sum_sq(s) >= 0,
    decreases s.len(),
{
    if s.len() > 0 {
        lemma_sum_sq_nonneg(s.drop_last());
        assert(s.last() * s.last() >= 0) by (nonlinear_arith);
    }
}

/// Integer square root by bisection.
fn isqrt_u128(m: u128) -> (r: u64)
    ensures
        is_isqrt(r as int, m as int),
{
    if m == 0 {
        return 0;
    }
    let mut lo: u128 = 0;
    let mut hi: u128 = 0x1_0000_0000_0000_0000;
    assert((hi as int) * (hi as int) > m as int) by (nonlinear_arith)
        requires hi == 0x1_0000_0000_0000_0000u128 && m <= u128::MAX;
    while lo + 1 < hi
        invariant
            lo < hi <= 0x1_0000_0000_0000_0000u128,
            (lo as int) * (lo as int) <= m as int,
            (hi as int) * (hi as int) > m as int,
        decreases hi - lo,
    {
        let mid = lo + (hi - lo) / 2;
        assert(lo < mid < hi);
        assert((mid as int) * (mid as int) <= (0xFFFF_FFFF_FFFF_FFFFu64 as int) * (
        0xFFFF_FFFF_FFFF_FFFFu64 as int)) by (nonlinear_arith)
            requires mid < 0x1_0000_0000_0000_0000u128;
        if mid * mid <= m {
            lo = mid;
        } else {
            hi = mid;
        }
    }
    assert(hi == lo + 1);
    lo as u64
}

/// RMS of a window of samples: the integer square root of the mean of
/// the squares; exactly 0 for an empty window (defined, not an error).
/// Samples may be negative; every term is squared before summing.
pub fn calculate_rms(samples: &Vec<i64>) -> (r: u64)
    requires
        forall|i: int|
            0 <= i < samples@.len() ==> -SAMPLE_LIMIT <= #[trigger] samples@[i] <= SAMPLE_LIMIT,
    ensures
        samples@.len() == 0 ==> r == 0,
        samples@.len() > 0 ==> is_isqrt(
            r as int,
            sum_sq(samples@.map_values(|x: i64| x as int)) / samples@.len() as int,
        ),
{
    let ghost v = samples@.map_values(|x: i64| x as int);
    if samples.len() == 0 {
        return 0;
    }

    let mut acc: u128 = 0;
    let mut idx: usize = 0;
    while idx < samples.len()
        invariant
            idx <= samples@.len(),
            v == samples@.map_values(|x: i64| x as int),
            forall|i: int|
                0 <= i < samples@.len() ==> -SAMPLE_LIMIT <= #[trigger] samples@[i] <= SAMPLE_LIMIT,
            acc as int == sum_sq(v.subrange(0, idx as int)),
            acc as int <= (idx as int) * 4_000_000_000_000_000_000,
        decreases samples@.len() - idx,
    {
        let x = samples[idx];
        assert(0 <= x * x <= 4_000_000_000_000_000_000) by (nonlinear_arith)
            requires -2_000_000_000 <= x <= 2_000_000_000;
        assert(acc + x * x <= ((idx + 1) as int) * 4_000_000_000_000_000_000 <= u128::MAX)
            by (nonlinear_arith)
            requires
                acc as int <= (idx as int) * 4_000_000_000_000_000_000,
                0 <= x * x <= 4_000_000_000_000_000_000,
                0 <= idx as int <= 0xFFFF_FFFF_FFFF_FFFFu64 as int;
        let sq: u128 = (x * x) as u128;
        proof {
            assert(v.subrange(0, (idx + 1) as int).drop_last() =~= v.subrange(0, idx as int));
            assert(v.subrange(0, (idx + 1) as int).last() == x as int);
        }
        acc = acc + sq;
        idx = idx + 1;
    }
    assert(v.subrange(0, samples@.len() as int) =~= v);

    let n: u128 = samples.len() as u128;
    proof {
        lemma_sum_sq_nonneg(v);
    }
    let mean: u128 = acc / n;
    isqrt_u128(mean)
}

/// RMS of raw integer ADC samples: the squaring is performed after
/// widening, so no ADC value can overflow a square.
pub fn calculate_rms_i32(samples: &Vec<i32>) -> (r: u64)
    ensures
        samples@.len() == 0 ==> r == 0,
        samples@.len() > 0 ==> is_isqrt(
            r as int,
            sum_sq(samples@.map_values(|x: i32| x as int)) / samples@.len() as int,
        ),
{
    let ghost v = samples@.map_values(|x: i32| x as int);
    if samples.len() == 0 {
        return 0;
    }

    let mut acc: u128 = 0;
    let mut idx: usize = 0;
    while idx < samples.len()
        invariant
            idx <= samples@.len(),
            v == samples@.map_values(|x: i32| x as int),
            acc as int == sum_sq(v.subrange(0, idx as int)),
            acc as int <= (idx as int) * 0x4000_0000_0000_0000,
        decreases samples@.len() - idx,
    {
        let x: i64 = samples[idx] as i64;
        assert(0 <= x * x <= 0x4000_0000_0000_0000) by (nonlinear_arith)
            requires -0x8000_0000 <= x <= 0x8000_0000;
        assert(acc + x * x <= ((idx + 1) as int) * 0x4000_0000_0000_0000 <= u128::MAX)
            by (nonlinear_arith)
            requires
                acc as int <= (idx as int) * 0x4000_0000_0000_0000,
                0 <= x * x <= 0x4000_0000_0000_0000,
                0 <= idx as int <= 0xFFFF_FFFF_FFFF_FFFFu64 as int;
        let sq: u128 = (x * x) as u128;
        proof {
            assert(v.subrange(0, (idx + 1) as int).drop_last() =~= v.subrange(0, idx as int));
            assert(v.subrange(0, (idx + 1) as int).last() == x as int);
        }
        acc = acc + sq;
        idx = idx + 1;
    }
    assert(v.subrange(0, samples@.len() as int) =~= v);

    let n: u128 = samples.len() as u128;
    proof {
        lemma_sum_sq_nonneg(v);
    }
    let mean: u128 = acc / n;
    isqrt_u128(mean)
}

/// Incremental RMS over a fixed window, with the same overwrite
/// discipline as the cyclic sample buffer: each new sample lands at the
/// write cursor, which wraps modulo the window size.
pub struct RmsCalculator {
    /// The window, in insertion order per slot.
    pub samples: Vec<i64>,
    /// Number of samples the window holds; fixed at construction.
    pub window_size: usize,
    /// Slot the next sample overwrites.
    pub current_index: usize,
}

impl RmsCalculator {
    /// A usable window: non-empty, the cursor inside it, every stored
    /// sample within the magnitude limit.
    pub open spec fn wf(&self) -> bool {
        &&& self.window_size > 0
        &&& self.samples@.len() == self.window_size
        &&& self.current_index < self.window_size
        &&& forall|i: int|
            0 <= i < self.samples@.len() ==> -SAMPLE_LIMIT <= #[trigger] self.samples@[i]
                <= SAMPLE_LIMIT
    }

    /// Create a calculator over `window_size` slots, all zero
    /// (e.g. 80 slots for one cycle).
    pub fn new(window_size: usize) -> (r: Self)
        requires
            window_size > 0,
        ensures
            r.wf(),
            r.window_size == window_size,
            r.current_index == 0,
            r.samples@.len() == window_size,
            forall|i: int| 0 <= i < window_size ==> #[trigger] r.samples@[i] == 0,
    {
        let mut samples: Vec<i64> = Vec::new();
        let mut i: usize = 0;
        while i < window_size
            invariant
                i <= window_size,
                samples@.len() == i,
                forall|j: int| 0 <= j < i ==> #[trigger] samples@[j] == 0,
            decreases window_size - i,
        {
            samples.push(0);
            i = i + 1;
        }
        Self { samples, window_size, current_index: 0 }
    }

    /// Overwrite the slot at the cursor and advance it, wrapping at the
    /// end of the window.
    pub fn add_sample(&mut self, sample: i64)
        requires
            old(self).wf(),
            -SAMPLE_LIMIT <= sample <= SAMPLE_LIMIT,
        ensures
            final(self).wf(),
            final(self).window_size == old(self).window_size,
            final(self).samples@ == old(self).samples@.update(
                old(self).current_index as int,
                sample,
            ),
            final(self).current_index == (old(self).current_index + 1) % old(
                self,
            ).window_size as int,
    {
        self.samples.set(self.current_index, sample);
        self.current_index = (self.current_index + 1) % self.window_size;
    }

    /// RMS over the current window contents.
    pub fn calculate(&self) -> (r: u64)
        requires
            self.wf(),
        ensures
            is_isqrt(
                r as int,
                sum_sq(self.samples@.map_values(|x: i64| x as int)) / self.samples@.len() as int,
            ),
    {
        calculate_rms(&self.samples)
    }

    /// Heuristic fill test: the cursor has wrapped back to zero and some
    /// stored sample is non-zero. A legitimately all-zero window is thus
    /// never reported full — a deliberate quirk of this heuristic.
    pub fn is_full(&self) -> (r: bool)
        ensures
            r == (self.current_index == 0 && exists|i: int|
                0 <= i < self.samples@.len() && self.samples@[i] != 0),
    {
        let mut has_nonzero = false;
        let mut i: usize = 0;
        while i < self.samples.len()
            invariant
                i <= self.samples@.len(),
                has_nonzero == exists|j: int| 0 <= j < i && self.samples@[j] != 0,
            decreases self.samples@.len() - i,
        {
            if self.samples[i] != 0 {
                has_nonzero = true;
            }
            i = i + 1;
        }
        self.current_index == 0 && has_nonzero
    }

    /// Number of slots in the window.
    pub fn window_size(&self) -> (r: usize)
        ensures
            r == self.window_size,
    {
        self.window_size
    }

    /// Zero every slot and rewind the cursor.
    pub fn reset(&mut self)
        ensures
            final(self).window_size == old(self).window_size,
            final(self).samples@.len() == old(self).samples@.len(),
            final(self).current_index == 0,
            forall|i: int|
                0 <= i < final(self).samples@.len() ==> #[trigger] final(self).samples@[i] == 0,
            old(self).wf() ==> final(self).wf(),
    {
        let mut i: usize = 0;
        while i < self.samples.len()
            invariant
                i <= self.samples@.len(),
                self.samples@.len() == old(self).samples@.len(),
                self.window_size == old(self).window_size,
                self.current_index == old(self).current_index,
                forall|j: int| 0 <= j < i ==> #[trigger] self.samples@[j] == 0,
            decreases self.samples@.len() - i,
        {
            self.samples.set(i, 0);
            i = i + 1;
        }
        self.current_index = 0;
    }
}

/// The sum of squares of a constant window is the length times the
/// square of the constant.
proof fn lemma_sum_sq_constant(s: Seq<int>, c: int)
    requires
        forall|i: int| 0 <= i < s.len() ==> s[i] == c,
    ensures
        sum_sq(s) == s.len() * c * c,
    decreases s.len(),
{
    if s.len() == 0 {
    } else {
        lemma_sum_sq_constant(s.drop_last(), c);
        assert(s.len() * c * c == (s.len() - 1) * c * c + c * c) by (nonlinear_arith);
    }
}

/// The integer square root of `m` is unique.
pub proof fn lemma_isqrt_unique(r1: int, r2: int, m: int)
    requires
        is_isqrt(r1, m),
        is_isqrt(r2, m),
    ensures
        r1 == r2,
{
    if r1 < r2 {
        assert((r1 + 1) * (r1 + 1) <= r2 * r2) by (nonlinear_arith)
            requires 0 <= r1 < r2;
    }
    if r2 < r1 {
        assert((r2 + 1) * (r2 + 1) <= r1 * r1) by (nonlinear_arith)
            requires 0 <= r2 < r1;
    }
}

/// RMS of a constant window is the constant itself, exactly: for every
/// non-empty window whose samples all equal `c >= 0`, the mean square is
/// `c * c` and its integer square root is `c`. Together with the result
/// type, the RMS of any window is also never negative.
pub proof fn lemma_rms_of_constant(s: Seq<int>, c: int)
    requires
        s.len() > 0,
        0 <= c,
        forall|i: int| 0 <= i < s.len() ==> s[i] == c,
    ensures
        is_isqrt(c, sum_sq(s) / s.len() as int),
{
    lemma_sum_sq_constant(s, c);
    assert(s.len() * c * c == (s.len() as int) * (c * c)) by (nonlinear_arith);
    lemma_div_multiples_vanish(c * c, s.len() as int);
    assert(sum_sq(s) / s.len() as int == c * c);
    assert(c * c < (c + 1) * (c + 1)) by (nonlinear_arith)
        requires 0 <= c;
}

/// What `calculate_rms` promises of a non-empty constant window forces
/// its result to be the constant itself: any `r` meeting the contract
/// equals `c`.
pub proof fn lemma_rms_constant_pins_result(s: Seq<int>, c: int, r: u64)
    requires
        s.len() > 0,
        0 <= c,
        forall|i: int| 0 <= i < s.len() ==> s[i] == c,
        is_isqrt(r as int, sum_sq(s) / s.len() as int),
    ensures
        r == c,
{
    lemma_rms_of_constant(s, c);
    lemma_isqrt_unique(r as int, c, sum_sq(s) / s.len() as int);
}

} // verus!
