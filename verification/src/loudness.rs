//! The loudness aggregators: the two-pass absolute/relative gating that
//! turns a stream of power frames into one integrated LUFS value, and the
//! running maximum over window loudnesses.

use vstd::prelude::*;

use crate::arith::{diff_of, lt_of, TEN_BITS, fsub, cmp_gt, cmp_lt};
use crate::frame::Frame;
use crate::stats::{Stats, run_mean, mean_step};
use crate::util::{Util, loudness_of};

verus! {

/// Bit pattern of -70.0 LUFS, the absolute loudness threshold.
pub const ABS_LOUDNESS_THRESH: u64 = 0xC051_8000_0000_0000;

/// The retained set of a stream of power frames: each frame whose
/// loudness exceeds the absolute threshold, paired with that loudness, in
/// stream order.
pub open spec fn retain(powers: Seq<Seq<u64>>, g: Seq<u64>) -> Seq<(u64, Seq<u64>)>
    decreases powers.len(),
{
    if powers.len() == 0 {
        Seq::empty()
    } else {
        let pre = retain(powers.drop_last(), g);
        let l = loudness_of(powers.last(), g);
        if lt_of(ABS_LOUDNESS_THRESH, l) {
            pre.push((l, powers.last()))
        } else {
            pre
        }
    }
}

/// No more frames are retained than were pushed.
pub proof fn lemma_retain_len(powers: Seq<Seq<u64>>, g: Seq<u64>)
    ensures
        retain(powers, g).len() <= powers.len(),
    decreases powers.len(),
{
    if powers.len() > 0 {
        lemma_retain_len(powers.drop_last(), g);
    }
}

/// The power frames of a retained set, without their loudnesses.
pub open spec fn retained_frames(retained: Seq<(u64, Seq<u64>)>) -> Seq<Seq<u64>> {
    retained.map(|i: int, t: (u64, Seq<u64>)| t.1)
}

/// The retained frames whose stored loudness exceeds the relative
/// threshold, in order.
pub open spec fn kept_frames(retained: Seq<(u64, Seq<u64>)>, rel: u64) -> Seq<Seq<u64>>
    decreases retained.len(),
{
    if retained.len() == 0 {
        Seq::empty()
    } else {
        let pre = kept_frames(retained.drop_last(), rel);
        if lt_of(rel, retained.last().0) {
            pre.push(retained.last().1)
        } else {
            pre
        }
    }
}

/// Law: the frames above the relative threshold are drawn from the
/// retained set — the final averaging never sees a frame the first pass
/// did not keep, and never more of them than were retained.
pub proof fn lemma_kept_frames_subset(retained: Seq<(u64, Seq<u64>)>, rel: u64)
    ensures
        kept_frames(retained, rel).len() <= retained.len(),
        forall|x: Seq<u64>|
            kept_frames(retained, rel).contains(x) ==> retained_frames(retained).contains(x),
    decreases retained.len(),
{
    if retained.len() > 0 {
        lemma_kept_frames_subset(retained.drop_last(), rel);
        let rf_all = retained_frames(retained);
        let rf_pre = retained_frames(retained.drop_last());
        let pre = kept_frames(retained.drop_last(), rel);
        let kf = kept_frames(retained, rel);
        assert forall|x: Seq<u64>| kf.contains(x) implies rf_all.contains(x) by {
            let j = choose|j: int| 0 <= j < kf.len() && kf[j] == x;
            if j < pre.len() {
                assert(pre[j] == x);
                assert(pre.contains(x));
                assert(rf_pre.contains(x));
                let i = choose|i: int| 0 <= i < rf_pre.len() && rf_pre[i] == x;
                assert(rf_all[i] == x);
                assert(rf_all.contains(x));
            } else {
                assert(x == retained.last().1);
                assert(rf_all[retained.len() - 1] == x);
                assert(rf_all.contains(x));
            }
        }
    }
}

/// The two-pass gated loudness of a retained set: no result when nothing
/// was retained; otherwise the relative threshold is the loudness of the
/// retained frames' running mean less 10 LU, and the result is the
/// loudness of the running mean of the frames above that threshold — or
/// no result when that set is empty.
pub open spec fn integrated_of(g: Seq<u64>, retained: Seq<(u64, Seq<u64>)>) -> Option<u64> {
    if retained.len() == 0 {
        Option::None
    } else {
        let l_abs = loudness_of(run_mean(retained_frames(retained)), g);
        let rel = diff_of(l_abs, TEN_BITS);
        let kept = kept_frames(retained, rel);
        if kept.len() == 0 {
            Option::None
        } else {
            Option::Some(loudness_of(run_mean(kept), g))
        }
    }
}

/// The integrated-loudness aggregator of one measurement: the running
/// mean of the retained power frames and the retained set itself,
/// consumed by `calculate`.
pub struct Loudness {
    abs_averager: Stats,
    abs_loud_frames: Vec<(u64, Frame)>,
    g_weights: Frame,
}

impl Loudness {
    /// The per-channel weights of the loudness formula.
    pub closed spec fn g(&self) -> Seq<u64> {
        self.g_weights@
    }

    /// The retained set so far: each kept power frame with its loudness.
    pub closed spec fn retained(&self) -> Seq<(u64, Seq<u64>)> {
        self.abs_loud_frames@.map(|i: int, t: (u64, Frame)| (t.0, t.1@))
    }

    pub closed spec fn wf(&self) -> bool {
        &&& self.g_weights.wf()
        &&& self.abs_averager.wf()
        &&& self.abs_averager.count == self.abs_loud_frames@.len()
        &&& self.abs_averager.mean@ == run_mean(retained_frames(self.retained()))
        &&& forall|j: int|
            0 <= j < self.abs_loud_frames@.len() ==> (#[trigger] self.abs_loud_frames@[j]).1.wf()
    }

    pub fn new(g_weights: Frame) -> (r: Loudness)
        requires
            g_weights.wf(),
        ensures
            r.wf(),
            r.g() == g_weights@,
            r.retained() == Seq::<(u64, Seq<u64>)>::empty(),
    {
        let r = Loudness {
            abs_averager: Stats::new(),
            abs_loud_frames: Vec::new(),
            g_weights,
        };
        proof {
            assert(r.retained() =~= Seq::<(u64, Seq<u64>)>::empty());
            assert(retained_frames(r.retained()) =~= Seq::<Seq<u64>>::empty());
        }
        r
    }

    /// Consumes one power frame: when its loudness exceeds the absolute
    /// threshold, the frame joins the retained set and the running mean
    /// advances; otherwise the frame is discarded.
    pub fn push(&mut self, gated_powers: &Frame)
        requires
            old(self).wf(),
            gated_powers.wf(),
            old(self).retained().len() < u64::MAX,
        ensures
            final(self).wf(),
            final(self).g() == old(self).g(),
            final(self).retained() == ({
                let l = loudness_of(gated_powers@, old(self).g());
                if lt_of(ABS_LOUDNESS_THRESH, l) {
                    old(self).retained().push((l, gated_powers@))
                } else {
                    old(self).retained()
                }
            }),
    {
        let frame_loudness = Util::loudness(gated_powers, &self.g_weights);
        if cmp_gt(frame_loudness, ABS_LOUDNESS_THRESH) {
            let ghost frames0 = retained_frames(self.retained());
            self.abs_averager.add(gated_powers);
            self.abs_loud_frames.push((frame_loudness, gated_powers.duplicate()));
            proof {
                let frames1 = retained_frames(self.retained());
                assert(frames1 =~= frames0.push(gated_powers@));
                assert(frames1.drop_last() =~= frames0);
            }
        }
    }

    /// Whether no frame has been retained yet.
    pub fn is_empty(&self) -> (r: bool)
        requires
            self.wf(),
        ensures
            r == (self.retained().len() == 0),
    {
        self.abs_loud_frames.len() == 0
    }

    /// Empties the aggregator: it is as freshly built with the same
    /// weights.
    pub fn reset(&mut self)
        requires
            old(self).wf(),
        ensures
            final(self).wf(),
            final(self).g() == old(self).g(),
            final(self).retained() == Seq::<(u64, Seq<u64>)>::empty(),
    {
        self.abs_averager = Stats::new();
        self.abs_loud_frames = Vec::new();
        proof {
            assert(self.retained() =~= Seq::<(u64, Seq<u64>)>::empty());
            assert(retained_frames(self.retained()) =~= Seq::<Seq<u64>>::empty());
        }
    }

    /// The two-pass absolute/relative gated loudness of everything
    /// retained.
    pub fn calculate(self) -> (r: Option<u64>)
        requires
            self.wf(),
        ensures
            r == integrated_of(self.g(), self.retained()),
    {
        let ghost retained = self.retained();
        let Loudness { abs_averager, abs_loud_frames, g_weights } = self;
        if abs_loud_frames.len() == 0 {
            return None;
        }
        let abs_loudness = Util::loudness(&abs_averager.mean, &g_weights);
        let rel_thresh = fsub(abs_loudness, TEN_BITS);
        let mut rel_averager = Stats::new();
        let mut i: usize = 0;
        while i < abs_loud_frames.len()
            invariant
                i <= abs_loud_frames@.len(),
                abs_loud_frames@.len() <= u64::MAX,
                retained == abs_loud_frames@.map(|j: int, t: (u64, Frame)| (t.0, t.1@)),
                forall|j: int|
                    0 <= j < abs_loud_frames@.len() ==> (#[trigger] abs_loud_frames@[j]).1.wf(),
                rel_averager.wf(),
                rel_averager.count == kept_frames(retained.take(i as int), rel_thresh).len(),
                rel_averager.count <= i,
                rel_averager.mean@ == run_mean(kept_frames(retained.take(i as int), rel_thresh)),
            decreases abs_loud_frames@.len() - i,
        {
            proof {
                assert(retained.take(i + 1).drop_last() =~= retained.take(i as int));
                assert(retained.take(i + 1).last() == retained[i as int]);
            }
            let entry_loudness = abs_loud_frames[i].0;
            if cmp_gt(entry_loudness, rel_thresh) {
                let ghost kf0 = kept_frames(retained.take(i as int), rel_thresh);
                add_entry_frame(&mut rel_averager, &abs_loud_frames, i);
                proof {
                    let kf1 = kept_frames(retained.take(i + 1), rel_thresh);
                    assert(kf1.drop_last() =~= kf0);
                }
            }
            i = i + 1;
        }
        proof {
            assert(retained.take(abs_loud_frames@.len() as int) =~= retained);
        }
        if rel_averager.count == 0 {
            None
        } else {
            Some(Util::loudness(&rel_averager.mean, &g_weights))
        }
    }
}

/// Advances the relative averager by the frame of one retained entry.
fn add_entry_frame(averager: &mut Stats, entries: &Vec<(u64, Frame)>, i: usize)
    requires
        old(averager).wf(),
        i < entries@.len(),
        entries@[i as int].1.wf(),
        old(averager).count < u64::MAX,
    ensures
        final(averager).wf(),
        final(averager).count == old(averager).count + 1,
        final(averager).mean@ == mean_step(
            old(averager).mean@,
            entries@[i as int].1@,
            old(averager).count,
        ),
{
    averager.add(&entries[i].1);
}

/// The running maximum of the window loudnesses of a stream of power
/// frames: no result before the first frame, and NaN loudnesses never
/// displace the maximum.
pub open spec fn max_loudness(powers: Seq<Seq<u64>>, g: Seq<u64>) -> Option<u64>
    decreases powers.len(),
{
    if powers.len() == 0 {
        Option::None
    } else {
        let pre = max_loudness(powers.drop_last(), g);
        let l = loudness_of(powers.last(), g);
        match pre {
            Option::None => Option::Some(l),
            Option::Some(b) => Option::Some(
                if lt_of(b, l) {
                    l
                } else {
                    b
                },
            ),
        }
    }
}

/// The maximum-over-windows aggregator: tracks the largest window
/// loudness seen so far.
pub struct WindowMax {
    g_weights: Frame,
    best: Option<u64>,
    powers: Ghost<Seq<Seq<u64>>>,
}

impl WindowMax {
    /// The per-channel weights of the loudness formula.
    pub closed spec fn g(&self) -> Seq<u64> {
        self.g_weights@
    }

    /// Every power frame consumed so far.
    pub closed spec fn powers(&self) -> Seq<Seq<u64>> {
        self.powers@
    }

    pub closed spec fn wf(&self) -> bool {
        &&& self.g_weights.wf()
        &&& self.best == max_loudness(self.powers@, self.g_weights@)
    }

    pub fn new(g_weights: Frame) -> (r: WindowMax)
        requires
            g_weights.wf(),
        ensures
            r.wf(),
            r.g() == g_weights@,
            r.powers() == Seq::<Seq<u64>>::empty(),
    {
        WindowMax { g_weights, best: None, powers: Ghost(Seq::empty()) }
    }

    /// Consumes one power frame, keeping the larger of the running
    /// maximum and this window's loudness.
    pub fn push(&mut self, gated_powers: &Frame)
        requires
            old(self).wf(),
            gated_powers.wf(),
        ensures
            final(self).wf(),
            final(self).g() == old(self).g(),
            final(self).powers() == old(self).powers().push(gated_powers@),
    {
        let l = Util::loudness(gated_powers, &self.g_weights);
        proof {
            self.powers@ = self.powers@.push(gated_powers@);
            assert(self.powers@.drop_last() =~= old(self).powers@);
        }
        match self.best {
            None => {
                self.best = Some(l);
            },
            Some(b) => {
                if cmp_lt(b, l) {
                    self.best = Some(l);
                }
            },
        }
    }

    /// Empties the aggregator: it is as freshly built with the same
    /// weights.
    pub fn reset(&mut self)
        requires
            old(self).wf(),
        ensures
            final(self).wf(),
            final(self).g() == old(self).g(),
            final(self).powers() == Seq::<Seq<u64>>::empty(),
    {
        self.best = None;
        proof {
            self.powers@ = Seq::empty();
        }
    }

    /// The largest window loudness seen, or no result when none arrived.
    pub fn calculate(self) -> (r: Option<u64>)
        requires
            self.wf(),
        ensures
            r == max_loudness(self.powers(), self.g()),
    {
        self.best
    }
}

} // verus!
