//! Fixed-width multichannel sample frames.
//!
//! A frame holds one binary64 sample per channel, each carried as its bit
//! pattern. The channel count is fixed at [`MAX_CHANNELS`]; unused channels
//! hold the silent sample 0.0.

use vstd::prelude::*;

use crate::arith::{sum_of, prod_of, quot_of, real_of, ZERO_BITS, fadd, fmul, fdiv, from_int};

verus! {

/// Number of channels in every frame: mono through 5.0 surround.
pub const MAX_CHANNELS: usize = 5;

/// The all-zero frame: one silent sample per channel.
pub open spec fn silent_frame() -> Seq<u64> {
    Seq::new(MAX_CHANNELS as nat, |i: int| ZERO_BITS)
}

/// Channel-wise binary64 sum of two frames.
pub open spec fn frame_add(a: Seq<u64>, b: Seq<u64>) -> Seq<u64> {
    Seq::new(a.len(), |i: int| sum_of(a[i], b[i]))
}

/// Channel-wise binary64 square of a frame.
pub open spec fn frame_sq(x: Seq<u64>) -> Seq<u64> {
    Seq::new(x.len(), |i: int| prod_of(x[i], x[i]))
}

/// Channel-wise binary64 division of a frame by the value of an integer.
pub open spec fn frame_scale_div(a: Seq<u64>, n: u64) -> Seq<u64> {
    Seq::new(a.len(), |i: int| quot_of(a[i], real_of(n)))
}

/// Left-to-right channel-wise sum of the squares of a sequence of frames,
/// starting from the silent frame.
pub open spec fn sq_sum(frames: Seq<Seq<u64>>) -> Seq<u64>
    decreases frames.len(),
{
    if frames.len() == 0 {
        silent_frame()
    } else {
        frame_add(sq_sum(frames.drop_last()), frame_sq(frames.last()))
    }
}

/// One multichannel sample instant: `MAX_CHANNELS` binary64 samples, each
/// held as its bit pattern.
pub struct Frame {
    chans: Vec<u64>,
}

impl View for Frame {
    type V = Seq<u64>;

    closed spec fn view(&self) -> Seq<u64> {
        self.chans@
    }
}

impl Frame {
    /// A frame always holds exactly one sample per channel.
    pub open spec fn wf(&self) -> bool {
        self@.len() == MAX_CHANNELS
    }

    pub fn new(chans: Vec<u64>) -> (r: Frame)
        requires
            chans@.len() == MAX_CHANNELS,
        ensures
            r@ == chans@,
            r.wf(),
    {
        Frame { chans }
    }

    pub fn silent() -> (r: Frame)
        ensures
            r@ == silent_frame(),
            r.wf(),
    {
        let mut v: Vec<u64> = Vec::new();
        let mut i: usize = 0;
        while i < MAX_CHANNELS
            invariant
                i <= MAX_CHANNELS,
                v@.len() == i,
                forall|j: int| 0 <= j < i ==> v@[j] == ZERO_BITS,
            decreases MAX_CHANNELS - i,
        {
            v.push(ZERO_BITS);
            i = i + 1;
        }
        let r = Frame { chans: v };
        proof {
            assert(r@ =~= silent_frame());
        }
        r
    }

    /// The sample of one channel.
    pub fn channel(&self, i: usize) -> (r: u64)
        requires
            self.wf(),
            i < MAX_CHANNELS,
        ensures
            r == self@[i as int],
    {
        self.chans[i]
    }

    /// An identical copy of this frame.
    pub fn duplicate(&self) -> (r: Frame)
        requires
            self.wf(),
        ensures
            r@ == self@,
            r.wf(),
    {
        let mut v: Vec<u64> = Vec::new();
        let mut i: usize = 0;
        while i < MAX_CHANNELS
            invariant
                self.wf(),
                i <= MAX_CHANNELS,
                v@.len() == i,
                forall|j: int| 0 <= j < i ==> v@[j] == self@[j],
            decreases MAX_CHANNELS - i,
        {
            v.push(self.chans[i]);
            i = i + 1;
        }
        let r = Frame { chans: v };
        proof {
            assert(r@ =~= self@);
        }
        r
    }

    /// The channel-wise square of this frame.
    pub fn squared(&self) -> (r: Frame)
        requires
            self.wf(),
        ensures
            r@ == frame_sq(self@),
            r.wf(),
    {
        let mut v: Vec<u64> = Vec::new();
        let mut i: usize = 0;
        while i < MAX_CHANNELS
            invariant
                self.wf(),
                i <= MAX_CHANNELS,
                v@.len() == i,
                forall|j: int| 0 <= j < i ==> v@[j] == prod_of(self@[j], self@[j]),
            decreases MAX_CHANNELS - i,
        {
            let c = self.chans[i];
            v.push(fmul(c, c));
            i = i + 1;
        }
        let r = Frame { chans: v };
        proof {
            assert(r@ =~= frame_sq(self@));
        }
        r
    }

    /// The channel-wise sum of this frame and another.
    pub fn plus(&self, other: &Frame) -> (r: Frame)
        requires
            self.wf(),
            other.wf(),
        ensures
            r@ == frame_add(self@, other@),
            r.wf(),
    {
        let mut v: Vec<u64> = Vec::new();
        let mut i: usize = 0;
        while i < MAX_CHANNELS
            invariant
                self.wf(),
                other.wf(),
                i <= MAX_CHANNELS,
                v@.len() == i,
                forall|j: int| 0 <= j < i ==> v@[j] == sum_of(self@[j], other@[j]),
            decreases MAX_CHANNELS - i,
        {
            v.push(fadd(self.chans[i], other.chans[i]));
            i = i + 1;
        }
        let r = Frame { chans: v };
        proof {
            assert(r@ =~= frame_add(self@, other@));
        }
        r
    }

    /// Every channel divided by the binary64 value of the integer `n`.
    pub fn scale_div(&self, n: u64) -> (r: Frame)
        requires
            self.wf(),
        ensures
            r@ == frame_scale_div(self@, n),
            r.wf(),
    {
        let d = from_int(n);
        let mut v: Vec<u64> = Vec::new();
        let mut i: usize = 0;
        while i < MAX_CHANNELS
            invariant
                self.wf(),
                i <= MAX_CHANNELS,
                v@.len() == i,
                d == real_of(n),
                forall|j: int| 0 <= j < i ==> v@[j] == quot_of(self@[j], real_of(n)),
            decreases MAX_CHANNELS - i,
        {
            v.push(fdiv(self.chans[i], d));
            i = i + 1;
        }
        let r = Frame { chans: v };
        proof {
            assert(r@ =~= frame_scale_div(self@, n));
        }
        r
    }
}

} // verus!
