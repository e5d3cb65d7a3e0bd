//! A standalone mean-square accumulator over batches of frames: the
//! running per-channel mean of squared samples.

use vstd::prelude::*;

use crate::arith::{sum_of, prod_of, quot_of, real_of, fadd, fmul, fdiv, from_int};
use crate::frame::{Frame, silent_frame, frame_scale_div, sq_sum, MAX_CHANNELS};

verus! {

/// How a batch of summed squares folds into the running mean squares:
/// the first batch is averaged directly; later batches combine
/// count-weighted, channel-wise, as `(n*curr + summed) / (n + m)`.
pub open spec fn mean_sq_combine(curr: Seq<u64>, n: usize, summed: Seq<u64>, m: usize) -> Seq<
    u64,
> {
    if n == 0 {
        frame_scale_div(summed, m as u64)
    } else {
        Seq::new(
            curr.len(),
            |i: int| quot_of(
                sum_of(prod_of(real_of(n as u64), curr[i]), summed[i]),
                real_of((n + m) as u64),
            ),
        )
    }
}

/// The running mean of the element-wise squares of every sample added so
/// far, with the count of samples.
pub struct MeanSquare {
    curr: Frame,
    num: usize,
}

impl MeanSquare {
    pub closed spec fn mean(&self) -> Seq<u64> {
        self.curr@
    }

    pub closed spec fn count(&self) -> usize {
        self.num
    }

    pub closed spec fn wf(&self) -> bool {
        &&& self.curr.wf()
        &&& (self.num == 0 ==> self.curr@ == silent_frame())
    }

    pub fn new() -> (r: MeanSquare)
        ensures
            r.wf(),
            r.count() == 0,
            r.mean() == silent_frame(),
    {
        MeanSquare { curr: Frame::silent(), num: 0 }
    }

    /// The current mean squares, channel by channel.
    pub fn mean_sqs(&self) -> (r: Frame)
        requires
            self.wf(),
        ensures
            r@ == self.mean(),
            r.wf(),
    {
        self.curr.duplicate()
    }

    /// How many samples have been accumulated.
    pub fn num_samples(&self) -> (r: usize)
        ensures
            r == self.count(),
    {
        self.num
    }

    /// Accumulates a batch of samples: their squares are summed left to
    /// right and folded count-weighted into the running mean. An empty
    /// batch changes nothing.
    pub fn add_samples(&mut self, samples: &Vec<Frame>)
        requires
            old(self).wf(),
            forall|j: int| 0 <= j < samples@.len() ==> (#[trigger] samples@[j]).wf(),
            old(self).count() + samples@.len() <= usize::MAX,
        ensures
            final(self).wf(),
            samples@.len() == 0 ==> *final(self) == *old(self),
            samples@.len() > 0 ==> {
                &&& final(self).count() == old(self).count() + samples@.len()
                &&& final(self).mean() == mean_sq_combine(
                    old(self).mean(),
                    old(self).count(),
                    sq_sum(samples@.map(|j: int, f: Frame| f@)),
                    samples@.len() as usize,
                )
            },
    {
        let m = samples.len();
        if m == 0 {
            return ;
        }
        let ghost views = samples@.map(|j: int, f: Frame| f@);
        let mut summed = Frame::silent();
        let mut k: usize = 0;
        while k < m
            invariant
                m == samples@.len(),
                views == samples@.map(|j: int, f: Frame| f@),
                forall|j: int| 0 <= j < samples@.len() ==> (#[trigger] samples@[j]).wf(),
                k <= m,
                summed.wf(),
                summed@ == sq_sum(views.take(k as int)),
            decreases m - k,
        {
            proof {
                assert(views.take(k + 1).drop_last() =~= views.take(k as int));
                assert(views.take(k + 1).last() == samples@[k as int]@);
            }
            let sq = samples[k].squared();
            summed = summed.plus(&sq);
            k = k + 1;
        }
        proof {
            assert(views.take(m as int) =~= views);
        }
        if self.num == 0 {
            self.curr = summed.scale_div(m as u64);
            self.num = m;
        } else {
            let nf = from_int(self.num as u64);
            let tf = from_int((self.num + m) as u64);
            let mut v: Vec<u64> = Vec::new();
            let mut i: usize = 0;
            while i < MAX_CHANNELS
                invariant
                    self.curr.wf(),
                    summed.wf(),
                    0 < self.num,
                    self.num + m <= usize::MAX,
                    nf == real_of(self.num as u64),
                    tf == real_of((self.num + m) as u64),
                    i <= MAX_CHANNELS,
                    v@.len() == i,
                    forall|j: int|
                        0 <= j < i ==> v@[j] == quot_of(
                            sum_of(prod_of(real_of(self.num as u64), self.curr@[j]), summed@[j]),
                            real_of((self.num + m) as u64),
                        ),
                decreases MAX_CHANNELS - i,
            {
                v.push(fdiv(fadd(fmul(nf, self.curr.channel(i)), summed.channel(i)), tf));
                i = i + 1;
            }
            let new_curr = Frame::new(v);
            proof {
                assert(new_curr@ =~= mean_sq_combine(self.curr@, self.num, summed@, m));
            }
            self.curr = new_curr;
            self.num = self.num + m;
        }
    }
}

} // verus!
