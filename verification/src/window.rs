//! Choosing the analysis window size and cutting a signal into overlapping frames.
use vstd::prelude::*;

verus! {

/// The smallest analysis window, in samples.
pub const MIN_WINDOW_SIZE: usize = 512;

/// The largest analysis window, in samples.
pub const MAX_WINDOW_SIZE: usize = 8192;

/// `2^e` for a natural exponent.
pub open spec fn pow2(e: nat) -> nat
    decreases e,
{
    if e == 0 {
        1
    } else {
        2 * pow2((e - 1) as nat)
    }
}

/// The window size chosen for a rounded base-2 exponent: the power of two
/// `2^exponent`, clamped to `[MIN_WINDOW_SIZE, MAX_WINDOW_SIZE]`.
pub open spec fn spec_window_size(exponent: int) -> int {
    if exponent <= 9 {
        MIN_WINDOW_SIZE as int
    } else if exponent >= 13 {
        MAX_WINDOW_SIZE as int
    } else {
        pow2(exponent as nat) as int
    }
}

/// The window size for a sample count whose base-2 logarithm, rounded to the
/// nearest integer, is `exponent`: `2^exponent` clamped to `[512, 8192]`.
pub fn window_size_from_exponent(exponent: i32) -> (size: usize)
    ensures
        size == spec_window_size(exponent as int),
        MIN_WINDOW_SIZE <= size <= MAX_WINDOW_SIZE,
        exists|e: nat| 9 <= e <= 13 && size == #[trigger] pow2(e),
{
    proof {
        reveal_with_fuel(pow2, 14);
        assert(pow2(9) == 512 && pow2(13) == 8192);
    }
    if exponent <= 9 {
        MIN_WINDOW_SIZE
    } else if exponent >= 13 {
        MAX_WINDOW_SIZE
    } else {
        let mut size: usize = 1;
        let mut i: i32 = 0;
        while i < exponent
            invariant
                0 <= i <= exponent < 13,
                size == pow2(i as nat),
            decreases exponent - i,
        {
            proof {
                lemma_pow2_le_8192(i as nat);
            }
            size = size * 2;
            i = i + 1;
        }
        size
    }
}

/// The chosen window size never decreases as the exponent grows.
pub proof fn lemma_window_size_monotone(a: int, b: int)
    requires
        a <= b,
    ensures
        spec_window_size(a) <= spec_window_size(b),
{
    reveal_with_fuel(pow2, 14);
}

/// Below 2^9 the window is 512 samples, above 2^13 it is 8192, and in
/// between it is exactly `2^exponent`, doubling with each step.
pub proof fn lemma_window_size_values(exponent: int)
    ensures
        exponent <= 9 ==> spec_window_size(exponent) == 512,
        exponent >= 13 ==> spec_window_size(exponent) == 8192,
        exponent == 10 ==> spec_window_size(exponent) == 1024,
        exponent == 11 ==> spec_window_size(exponent) == 2048,
        exponent == 12 ==> spec_window_size(exponent) == 4096,
        9 <= exponent < 13 ==> spec_window_size(exponent + 1) == 2 * spec_window_size(exponent),
{
    reveal_with_fuel(pow2, 14);
}

proof fn lemma_pow2_le_8192(e: nat)
    requires
        e <= 13,
    ensures
        pow2(e) <= 8192,
    decreases e,
{
    reveal_with_fuel(pow2, 14);
}


/// The number of whole frames of `window_size` samples that fit, one every
/// `hop_size` samples starting at sample 0, in a signal of `len` samples.
pub open spec fn frame_count(len: int, window_size: int, hop_size: int) -> int {
    if window_size > len {
        0
    } else {
        (len - window_size) / hop_size + 1
    }
}

/// The start of the last frame, when at least one frame fits.
pub open spec fn last_frame_start(len: int, window_size: int, hop_size: int) -> int {
    ((len - window_size) / hop_size) * hop_size
}

/// Whether scanning a signal of `len` samples for frames ends without
/// overflowing a `usize`: either no frame fits, or the hop is positive and
/// the position one hop past the last frame, plus a window, stays in range.
pub open spec fn frame_scan_is_finite(len: int, window_size: int, hop_size: int) -> bool {
    window_size > len || (hop_size > 0 && last_frame_start(len, window_size, hop_size)
        + hop_size + window_size <= usize::MAX)
}

/// The frame scan ends when no frame fits, never ends with a zero hop when a
/// frame fits, and ends whenever the signal length plus one hop stays in
/// range.
pub proof fn lemma_frame_scan_finiteness(len: int, window_size: int, hop_size: int)
    requires
        0 <= len,
        0 <= window_size,
        0 <= hop_size,
    ensures
        window_size > len ==> frame_scan_is_finite(len, window_size, hop_size),
        window_size <= len && hop_size == 0 ==> !frame_scan_is_finite(len, window_size, hop_size),
        hop_size > 0 && len + hop_size <= usize::MAX ==> frame_scan_is_finite(
            len,
            window_size,
            hop_size,
        ),
{
    if window_size <= len && hop_size > 0 {
        lemma_mul_le_iff_le_div((len - window_size) / hop_size, hop_size, len - window_size);
    }
}

proof fn lemma_mul_le_iff_le_div(n: int, h: int, l: int)
    by (nonlinear_arith)
    requires
        n >= 0,
        h > 0,
        l >= 0,
    ensures
        n * h <= l <==> n <= l / h,
        (l / h) * h <= l,
        l < (l / h + 1) * h,
{
}

proof fn lemma_mul_mono(a: int, b: int, h: int)
    by (nonlinear_arith)
    requires
        0 <= a <= b,
        h >= 0,
    ensures
        a * h <= b * h,
{
}

/// Tells whether `frame_starts` may be called on these arguments: it is
/// `frame_scan_is_finite` computed without overflow.
pub fn frame_scan_is_finite_exec(len: usize, window_size: usize, hop_size: usize) -> (ok: bool)
    ensures
        ok == frame_scan_is_finite(len as int, window_size as int, hop_size as int),
{
    if window_size > len {
        true
    } else if hop_size == 0 {
        false
    } else {
        proof {
            lemma_mul_le_iff_le_div(
                (len - window_size) as int / hop_size as int,
                hop_size as int,
                (len - window_size) as int,
            );
        }
        let last: usize = ((len - window_size) / hop_size) * hop_size;
        last <= usize::MAX - hop_size && last + hop_size <= usize::MAX - window_size
    }
}

/// The first sample of each frame that a signal of `len` samples is cut
/// into: frame `k` starts at `k * hop_size`, and frames are taken while a
/// whole window of `window_size` samples still fits.
pub fn frame_starts(len: usize, window_size: usize, hop_size: usize) -> (starts: Vec<usize>)
    requires
        frame_scan_is_finite(len as int, window_size as int, hop_size as int),
    ensures
        starts@.len() == frame_count(len as int, window_size as int, hop_size as int),
        forall|k: int| 0 <= k < starts@.len() ==> #[trigger] starts@[k] == k * hop_size,
        forall|k: int| 0 <= k < starts@.len() ==> #[trigger] starts@[k] + window_size <= len,
        starts@.len() * hop_size + window_size > len,
{
    let mut starts: Vec<usize> = Vec::new();
    if window_size > len {
        return starts;
    }
    let ghost l: int = (len - window_size) as int;
    let ghost q: int = l / hop_size as int;
    proof {
        lemma_mul_le_iff_le_div(q, hop_size as int, l);
    }
    let mut start: usize = 0;
    while start + window_size <= len
        invariant
            window_size <= len,
            hop_size > 0,
            l == len - window_size,
            q == l / hop_size as int,
            q * hop_size + hop_size + window_size <= usize::MAX,
            starts@.len() <= q + 1,
            start == starts@.len() * hop_size,
            start <= q * hop_size + hop_size,
            forall|k: int| 0 <= k < starts@.len() ==> #[trigger] starts@[k] == k * hop_size,
            forall|k: int| 0 <= k < starts@.len() ==> #[trigger] starts@[k] + window_size <= len,
        decreases q + 1 - starts@.len(),
    {
        proof {
            lemma_mul_le_iff_le_div(starts@.len() as int, hop_size as int, l);
            lemma_mul_mono(starts@.len() as int, q, hop_size as int);
        }
        starts.push(start);
        proof {
            lemma_mul_mono(starts@.len() as int, q + 1, hop_size as int);
        }
        assert((starts@.len() - 1) * hop_size + hop_size == starts@.len() * hop_size) by (nonlinear_arith);
        start = start + hop_size;
    }
    proof {
        lemma_mul_le_iff_le_div(starts@.len() as int, hop_size as int, l);
    }
    starts
}

} // verus!
