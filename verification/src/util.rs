//! Scalar helpers: the LUFS conversion, the weighted loudness formula, the
//! per-frame sample peak, the denormal flush and the millisecond-to-sample
//! conversion.

use vstd::prelude::*;

use crate::arith::{
    sum_of, prod_of, quot_of, real_of, log10_of, abs_of, max_of, ZERO_BITS, TEN_BITS, fadd, fmul,
    fdiv, flog10, from_int, abs_val, max_val,
};
use crate::frame::{Frame, MAX_CHANNELS};

verus! {

/// Bit pattern of -0.691, the constant term of the loudness formula.
pub const NEG_0691_BITS: u64 = 0xBFE6_1CAC_0831_26E9;

/// Bit pattern of 1.0e-15, the magnitude below which a value is flushed
/// to zero.
pub const DEN_THRESHOLD: u64 = 0x3CD2_03AF_9EE7_5616;

/// The LUFS conversion `-0.691 + 10.0 * log10(x)`, on bit patterns, with
/// the multiplication and addition in that order.
pub open spec fn lufs_of(x: u64) -> u64 {
    sum_of(NEG_0691_BITS, prod_of(TEN_BITS, log10_of(x)))
}

/// Left-to-right sum, starting from 0.0, of the channel-wise products of a
/// power frame and a weight frame.
pub open spec fn weighted_sum(p: Seq<u64>, g: Seq<u64>) -> u64
    decreases p.len(),
{
    if p.len() == 0 || g.len() == 0 {
        ZERO_BITS
    } else {
        sum_of(weighted_sum(p.drop_last(), g.drop_last()), prod_of(p.last(), g.last()))
    }
}

/// The weighted loudness of a power frame: `-0.691 + 10 log10(sum_c G_c p_c)`.
pub open spec fn loudness_of(p: Seq<u64>, g: Seq<u64>) -> u64 {
    lufs_of(weighted_sum(p, g))
}

/// Left-to-right maximum of the channels' absolute values, starting from
/// 0.0 and ignoring NaN channels.
pub open spec fn peak_fold(s: Seq<u64>) -> u64
    decreases s.len(),
{
    if s.len() == 0 {
        ZERO_BITS
    } else {
        max_of(peak_fold(s.drop_last()), abs_of(s.last()))
    }
}

/// A value whose magnitude lies below `DEN_THRESHOLD` is flushed to 0.0;
/// anything else, NaN included, passes through. For non-NaN values the
/// magnitude-bit comparison is exactly the numeric test `|x| < 1.0e-15`,
/// and NaN magnitudes sort above every threshold, as the numeric test also
/// leaves them untouched.
pub open spec fn flush_of(x: u64) -> u64 {
    if abs_of(x) < DEN_THRESHOLD {
        ZERO_BITS
    } else {
        x
    }
}

/// The number of samples in `ms` milliseconds at `sample_rate` hertz,
/// rounded half-up.
pub open spec fn ms_to_samples_spec(ms: u64, sample_rate: u32) -> int {
    ms * sample_rate / 1000 + if ms * sample_rate % 1000 >= 500 {
        1int
    } else {
        0int
    }
}

pub struct Util;

impl Util {
    /// The LUFS value of a mean-square power: `-0.691 + 10 * log10(x)`.
    pub fn lufs(x: u64) -> (r: u64)
        ensures
            r == lufs_of(x),
    {
        fadd(NEG_0691_BITS, fmul(TEN_BITS, flog10(x)))
    }

    /// Given the mean squares (powers) of an input signal and a set of
    /// per-channel weights, calculates the weighted loudness across all
    /// input channels.
    pub fn loudness(mean_sq: &Frame, weights: &Frame) -> (r: u64)
        requires
            mean_sq.wf(),
            weights.wf(),
        ensures
            r == loudness_of(mean_sq@, weights@),
    {
        let mut acc: u64 = ZERO_BITS;
        let mut i: usize = 0;
        while i < MAX_CHANNELS
            invariant
                mean_sq.wf(),
                weights.wf(),
                i <= MAX_CHANNELS,
                acc == weighted_sum(mean_sq@.take(i as int), weights@.take(i as int)),
            decreases MAX_CHANNELS - i,
        {
            proof {
                assert(mean_sq@.take(i + 1).drop_last() =~= mean_sq@.take(i as int));
                assert(weights@.take(i + 1).drop_last() =~= weights@.take(i as int));
            }
            acc = fadd(acc, fmul(mean_sq.channel(i), weights.channel(i)));
            i = i + 1;
        }
        proof {
            assert(mean_sq@.take(MAX_CHANNELS as int) =~= mean_sq@);
            assert(weights@.take(MAX_CHANNELS as int) =~= weights@);
        }
        Util::lufs(acc)
    }

    /// The highest absolute sample value in the frame, 0.0 for an empty
    /// fold, with NaN channels ignored.
    pub fn frame_peak(frame: &Frame) -> (r: u64)
        requires
            frame.wf(),
        ensures
            r == peak_fold(frame@),
    {
        let mut acc: u64 = ZERO_BITS;
        let mut i: usize = 0;
        while i < MAX_CHANNELS
            invariant
                frame.wf(),
                i <= MAX_CHANNELS,
                acc == peak_fold(frame@.take(i as int)),
            decreases MAX_CHANNELS - i,
        {
            proof {
                assert(frame@.take(i + 1).drop_last() =~= frame@.take(i as int));
            }
            acc = max_val(acc, abs_val(frame.channel(i)));
            i = i + 1;
        }
        proof {
            assert(frame@.take(MAX_CHANNELS as int) =~= frame@);
        }
        acc
    }

    /// The LUFS value of an accumulated power sum, or the reference value
    /// when nothing was accumulated.
    pub fn lufs_hist(count: u64, sum: u64, reference: u64) -> (r: u64)
        ensures
            count == 0 ==> r == reference,
            count != 0 ==> r == lufs_of(quot_of(sum, real_of(count))),
    {
        if count == 0 {
            reference
        } else {
            Util::lufs(fdiv(sum, from_int(count)))
        }
    }

    /// Flushes denormal-range values to zero, leaving everything else
    /// untouched.
    pub fn den(x: u64) -> (r: u64)
        ensures
            r == flush_of(x),
    {
        if abs_val(x) < DEN_THRESHOLD {
            ZERO_BITS
        } else {
            x
        }
    }

    /// Calculates the number of samples in a given number of milliseconds
    /// with respect to a sample rate, rounding to the nearest sample.
    pub fn ms_to_samples(ms: u64, sample_rate: u32) -> (r: u64)
        requires
            ms * sample_rate <= u64::MAX,
        ensures
            r == ms_to_samples_spec(ms, sample_rate),
    {
        let num: u64 = ms * (sample_rate as u64);
        (num / 1000) + if num % 1000 >= 500 {
            1u64
        } else {
            0u64
        }
    }
}

} // verus!
