//! Running statistics: the incremental arithmetic mean of frames, and the
//! merge of two such means.

use vstd::prelude::*;

use crate::arith::{sum_of, prod_of, quot_of, real_of, diff_of, is_nan, fadd, fmul, fdiv, fsub,
    from_int};
use crate::frame::{Frame, silent_frame, MAX_CHANNELS};

verus! {

/// One step of the running mean: the first frame is stored as the mean
/// itself; with `n > 0` frames already averaged, a further frame `f` moves
/// the mean to `mean + (f - mean) / (n + 1)` channel-wise.
pub open spec fn mean_step(mean: Seq<u64>, f: Seq<u64>, n: u64) -> Seq<u64> {
    if n == 0 {
        f
    } else {
        Seq::new(
            mean.len(),
            |i: int| sum_of(mean[i], quot_of(diff_of(f[i], mean[i]), real_of((n + 1) as u64))),
        )
    }
}

/// The running mean of a sequence of frames, advanced left to right from
/// the empty state.
pub open spec fn run_mean(frames: Seq<Seq<u64>>) -> Seq<u64>
    decreases frames.len(),
{
    if frames.len() == 0 {
        silent_frame()
    } else {
        mean_step(run_mean(frames.drop_last()), frames.last(), (frames.len() - 1) as u64)
    }
}

/// The channel-wise merged mean `(n*a + m*b) / t` of two running means,
/// where `t` is the combined count.
pub open spec fn merge_mean(n: u64, a: Seq<u64>, m: u64, b: Seq<u64>, t: u64) -> Seq<u64> {
    Seq::new(
        a.len(),
        |i: int| quot_of(sum_of(prod_of(real_of(n), a[i]), prod_of(real_of(m), b[i])), real_of(t)),
    )
}

/// The merge of two running means as a (count, mean) pair: a zero-count
/// mean is the identity, and otherwise the counts add and the means
/// combine count-weighted.
pub open spec fn merge_spec(n: u64, a: Seq<u64>, m: u64, b: Seq<u64>) -> (u64, Seq<u64>) {
    if m == 0 {
        (n, a)
    } else if n == 0 {
        (m, b)
    } else {
        (((n + m) as u64), merge_mean(n, a, m, b, (n + m) as u64))
    }
}

/// Well-formedness of an abstract (count, mean) pair: a zero count goes
/// with the silent mean.
pub open spec fn stats_view_wf(count: u64, mean: Seq<u64>) -> bool {
    &&& mean.len() == MAX_CHANNELS
    &&& (count == 0 ==> mean == silent_frame())
}

/// The running-mean state folded over a whole sequence of frames, starting
/// from the given (count, mean) state.
pub open spec fn stats_fold(count: u64, mean: Seq<u64>, frames: Seq<Seq<u64>>) -> (u64, Seq<u64>)
    decreases frames.len(),
{
    if frames.len() == 0 {
        (count, mean)
    } else {
        let prev = stats_fold(count, mean, frames.drop_last());
        (((prev.0 + 1) as u64), mean_step(prev.1, frames.last(), prev.0))
    }
}

/// Law: a zero-count running mean is the identity of the merge, on either
/// side.
pub proof fn lemma_merge_identity(count: u64, mean: Seq<u64>)
    requires
        stats_view_wf(count, mean),
    ensures
        merge_spec(0, silent_frame(), count, mean) == (count, mean),
        merge_spec(count, mean, 0, silent_frame()) == (count, mean),
{
}

/// An incremental arithmetic mean of frames: the count of frames seen and
/// their channel-wise running mean.
pub struct Stats {
    pub count: u64,
    pub mean: Frame,
}

impl Stats {
    /// A zero count always goes with the silent mean.
    pub open spec fn wf(&self) -> bool {
        &&& self.mean.wf()
        &&& (self.count == 0 ==> self.mean@ == silent_frame())
    }

    pub fn new() -> (r: Stats)
        ensures
            r.wf(),
            r.count == 0,
            r.mean@ == silent_frame(),
    {
        Stats { count: 0, mean: Frame::silent() }
    }

    /// Advances the running mean by one frame.
    pub fn add(&mut self, frame: &Frame)
        requires
            old(self).wf(),
            frame.wf(),
            old(self).count < u64::MAX,
        ensures
            final(self).wf(),
            final(self).count == old(self).count + 1,
            final(self).mean@ == mean_step(old(self).mean@, frame@, old(self).count),
    {
        if self.count == 0 {
            self.mean = frame.duplicate();
            self.count = 1;
        } else {
            let np1 = from_int(self.count + 1);
            let mut v: Vec<u64> = Vec::new();
            let mut i: usize = 0;
            while i < MAX_CHANNELS
                invariant
                    self.mean.wf(),
                    frame.wf(),
                    0 < self.count < u64::MAX,
                    np1 == real_of((self.count + 1) as u64),
                    i <= MAX_CHANNELS,
                    v@.len() == i,
                    forall|j: int|
                        0 <= j < i ==> v@[j] == sum_of(
                            self.mean@[j],
                            quot_of(
                                diff_of(frame@[j], self.mean@[j]),
                                real_of((self.count + 1) as u64),
                            ),
                        ),
                decreases MAX_CHANNELS - i,
            {
                let m = self.mean.channel(i);
                v.push(fadd(m, fdiv(fsub(frame.channel(i), m), np1)));
                i = i + 1;
            }
            let new_mean = Frame::new(v);
            proof {
                assert(new_mean@ =~= mean_step(self.mean@, frame@, self.count));
            }
            self.mean = new_mean;
            self.count = self.count + 1;
        }
    }

    /// Advances the running mean by every frame of a sequence, in order.
    pub fn extend(&mut self, frames: &Vec<Frame>)
        requires
            old(self).wf(),
            forall|j: int| 0 <= j < frames@.len() ==> #[trigger] frames@[j].wf(),
            old(self).count + frames@.len() <= u64::MAX,
        ensures
            final(self).wf(),
            (final(self).count, final(self).mean@) == stats_fold(
                old(self).count,
                old(self).mean@,
                frames@.map(|j: int, f: Frame| f@),
            ),
    {
        let ghost all = frames@.map(|j: int, f: Frame| f@);
        let mut i: usize = 0;
        while i < frames.len()
            invariant
                self.wf(),
                i <= frames@.len(),
                all == frames@.map(|j: int, f: Frame| f@),
                forall|j: int| 0 <= j < frames@.len() ==> #[trigger] frames@[j].wf(),
                old(self).count + frames@.len() <= u64::MAX,
                self.count == old(self).count + i,
                (self.count, self.mean@) == stats_fold(
                    old(self).count,
                    old(self).mean@,
                    all.take(i as int),
                ),
            decreases frames@.len() - i,
        {
            proof {
                assert(all.take(i + 1).drop_last() =~= all.take(i as int));
                assert(all.take(i + 1).last() == frames@[i as int]@);
            }
            self.add(&frames[i]);
            i = i + 1;
        }
        proof {
            assert(all.take(frames@.len() as int) =~= all);
        }
    }

    /// Merges two running means: the identity on a zero count, and the
    /// count-weighted combination otherwise. When no channel's
    /// count-weighted product is NaN, merging in either order gives the
    /// same count and the same mean — the second ensures states that law.
    pub fn merge(self, other: Stats) -> (r: Stats)
        requires
            self.wf(),
            other.wf(),
            self.count + other.count <= u64::MAX,
        ensures
            r.wf(),
            (r.count, r.mean@) == merge_spec(self.count, self.mean@, other.count, other.mean@),
            (forall|i: int|
                0 <= i < MAX_CHANNELS ==> !is_nan(
                    #[trigger] prod_of(real_of(self.count), self.mean@[i]),
                ) && !is_nan(prod_of(real_of(other.count), other.mean@[i]))) ==> (
            r.count,
            r.mean@,
            ) == merge_spec(other.count, other.mean@, self.count, self.mean@),
    {
        if other.count == 0 {
            self
        } else if self.count == 0 {
            other
        } else {
            let t: u64 = self.count + other.count;
            let nf = from_int(self.count);
            let mf = from_int(other.count);
            let tf = from_int(t);
            let mut v: Vec<u64> = Vec::new();
            let mut i: usize = 0;
            while i < MAX_CHANNELS
                invariant
                    self.wf(),
                    other.wf(),
                    0 < self.count,
                    0 < other.count,
                    t == self.count + other.count,
                    nf == real_of(self.count),
                    mf == real_of(other.count),
                    tf == real_of(t),
                    i <= MAX_CHANNELS,
                    v@.len() == i,
                    forall|j: int|
                        0 <= j < i ==> v@[j] == quot_of(
                            sum_of(
                                prod_of(real_of(self.count), self.mean@[j]),
                                prod_of(real_of(other.count), other.mean@[j]),
                            ),
                            real_of(t),
                        ),
                    forall|j: int|
                        0 <= j < i ==> (!is_nan(
                            #[trigger] prod_of(real_of(self.count), self.mean@[j]),
                        ) && !is_nan(prod_of(real_of(other.count), other.mean@[j]))) ==> v@[j]
                            == quot_of(
                            sum_of(
                                prod_of(real_of(other.count), other.mean@[j]),
                                prod_of(real_of(self.count), self.mean@[j]),
                            ),
                            real_of(t),
                        ),
                decreases MAX_CHANNELS - i,
            {
                let p1 = fmul(nf, self.mean.channel(i));
                let p2 = fmul(mf, other.mean.channel(i));
                v.push(fdiv(fadd(p1, p2), tf));
                i = i + 1;
            }
            let merged = Stats { count: t, mean: Frame::new(v) };
            proof {
                assert(merged.mean@ =~= merge_mean(
                    self.count,
                    self.mean@,
                    other.count,
                    other.mean@,
                    t,
                ));
                if forall|j: int|
                    0 <= j < MAX_CHANNELS ==> !is_nan(
                        #[trigger] prod_of(real_of(self.count), self.mean@[j]),
                    ) && !is_nan(prod_of(real_of(other.count), other.mean@[j])) {
                    assert(merged.mean@ =~= merge_mean(
                        other.count,
                        other.mean@,
                        self.count,
                        self.mean@,
                        t,
                    ));
                }
            }
            merged
        }
    }
}

} // verus!
