//! Sample-peak tracking: the running per-channel maximum of absolute
//! sample values, a pass-through observer on the frame stream.

use vstd::prelude::*;

use crate::arith::{abs_of, max_of, abs_val, max_val};
use crate::frame::{Frame, silent_frame, MAX_CHANNELS};

verus! {

/// One peak update: channel-wise, the larger of the peak so far and the
/// new sample's absolute value (NaN samples never displace a peak).
pub open spec fn peak_merge(p: Seq<u64>, x: Seq<u64>) -> Seq<u64> {
    Seq::new(p.len(), |i: int| max_of(p[i], abs_of(x[i])))
}

/// The per-channel peaks of a whole frame stream, starting from silence.
pub open spec fn peak_state(frames: Seq<Seq<u64>>) -> Seq<u64>
    decreases frames.len(),
{
    if frames.len() == 0 {
        silent_frame()
    } else {
        peak_merge(peak_state(frames.drop_last()), frames.last())
    }
}

/// The running sample peak of every channel seen so far. Observing a
/// frame never alters it: the tracker is a pass-through on the stream.
pub struct RunningPeak {
    peaks: Frame,
    frames: Ghost<Seq<Seq<u64>>>,
}

impl RunningPeak {
    /// Every frame observed so far.
    pub closed spec fn frames(&self) -> Seq<Seq<u64>> {
        self.frames@
    }

    pub closed spec fn wf(&self) -> bool {
        &&& self.peaks.wf()
        &&& self.peaks@ == peak_state(self.frames@)
    }

    pub fn new() -> (r: RunningPeak)
        ensures
            r.wf(),
            r.frames() == Seq::<Seq<u64>>::empty(),
    {
        RunningPeak { peaks: Frame::silent(), frames: Ghost(Seq::empty()) }
    }

    /// Observes one frame, raising each channel's peak to the frame's
    /// absolute value where that is larger.
    pub fn push(&mut self, frame: &Frame)
        requires
            old(self).wf(),
            frame.wf(),
        ensures
            final(self).wf(),
            final(self).frames() == old(self).frames().push(frame@),
    {
        let mut v: Vec<u64> = Vec::new();
        let mut i: usize = 0;
        while i < MAX_CHANNELS
            invariant
                self.wf(),
                frame.wf(),
                i <= MAX_CHANNELS,
                v@.len() == i,
                forall|j: int| 0 <= j < i ==> v@[j] == max_of(self.peaks@[j], abs_of(frame@[j])),
            decreases MAX_CHANNELS - i,
        {
            v.push(max_val(self.peaks.channel(i), abs_val(frame.channel(i))));
            i = i + 1;
        }
        let new_peaks = Frame::new(v);
        proof {
            assert(new_peaks@ =~= peak_merge(self.peaks@, frame@));
            self.frames@ = self.frames@.push(frame@);
            assert(self.frames@.drop_last() =~= old(self).frames@);
        }
        self.peaks = new_peaks;
    }

    /// The peaks seen so far.
    pub fn peaks(&self) -> (r: &Frame)
        requires
            self.wf(),
        ensures
            r@ == peak_state(self.frames()),
            r.wf(),
    {
        &self.peaks
    }
}

} // verus!
