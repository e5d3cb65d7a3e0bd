//! The gated power windower: a sliding fixed-length window over squared
//! frames that emits a mean-square power frame at fixed hops.
//!
//! After input number `i` (1-indexed), the windower emits exactly when
//! `i >= gate_frames` and `(i - gate_frames) % delta_frames == 0`; the
//! emitted frame is the channel-wise arithmetic mean of the squares of the
//! most recent `gate_frames` input frames, summed oldest to newest.

use vstd::prelude::*;
use vstd::pervasive::VecAdditionalExecFns;
use vstd::arithmetic::div_mod::lemma_fundamental_div_mod;
use vstd::arithmetic::div_mod::lemma_mod_bound;
use vstd::arithmetic::div_mod::lemma_fundamental_div_mod_converse;

use crate::frame::{Frame, frame_sq, frame_scale_div, sq_sum, MAX_CHANNELS};
use crate::util::{Util, ms_to_samples_spec};

verus! {

/// A gating: the window length and the hop, both in milliseconds.
#[derive(Debug, Copy, Clone, PartialEq, Eq, Hash, Structural)]
pub struct Gating {
    pub gate_len_ms: u64,
    pub delta_len_ms: u64,
}

/// The momentary gating: a 400 ms window every 100 ms.
pub open spec fn momentary_gating() -> Gating {
    Gating { gate_len_ms: 400, delta_len_ms: 100 }
}

/// The short-term gating: a 3000 ms window every 1000 ms.
pub open spec fn shortterm_gating() -> Gating {
    Gating { gate_len_ms: 3000, delta_len_ms: 1000 }
}

impl Gating {
    /// A gating is valid when the hop is positive and the window length is
    /// a positive multiple of it.
    pub open spec fn valid(self) -> bool {
        &&& self.delta_len_ms > 0
        &&& self.gate_len_ms > 0
        &&& self.gate_len_ms % self.delta_len_ms == 0
    }

    pub fn momentary() -> (g: Gating)
        ensures
            g == momentary_gating(),
    {
        Gating { gate_len_ms: 400, delta_len_ms: 100 }
    }

    pub fn shortterm() -> (g: Gating)
        ensures
            g == shortterm_gating(),
    {
        Gating { gate_len_ms: 3000, delta_len_ms: 1000 }
    }

    pub fn is_valid(&self) -> (r: bool)
        ensures
            r == self.valid(),
    {
        self.delta_len_ms > 0 && self.gate_len_ms > 0 && self.gate_len_ms % self.delta_len_ms == 0
    }
}

/// Whether the windower emits after consuming input number `n` of the
/// stream (1-indexed).
pub open spec fn emits_at(n: int, gate: int, delta: int) -> bool {
    n >= gate && (n - gate) % delta == 0
}

/// The power frame emitted after the last of `ins`: the channel-wise mean
/// of the squares of the most recent `gate` frames, summed oldest to
/// newest.
pub open spec fn window_power(ins: Seq<Seq<u64>>, gate: nat) -> Seq<u64> {
    frame_scale_div(sq_sum(ins.subrange(ins.len() - gate, ins.len() as int)), gate as u64)
}

/// How many of the inputs `1..=n` trigger an emission.
pub open spec fn emission_count(n: int, gate: int, delta: int) -> int
    decreases n,
{
    if n <= 0 {
        0
    } else {
        emission_count(n - 1, gate, delta) + if emits_at(n, gate, delta) {
            1int
        } else {
            0int
        }
    }
}

/// Law: over a stream of `n` frames the windower emits
/// `(n - gate) / delta + 1` power frames when `n >= gate`, and none
/// otherwise.
pub proof fn lemma_emission_count(n: int, gate: int, delta: int)
    requires
        n >= 0,
        gate >= 1,
        delta >= 1,
    ensures
        emission_count(n, gate, delta) == if n >= gate {
            (n - gate) / delta + 1
        } else {
            0int
        },
    decreases n,
{
    if n > 0 {
        lemma_emission_count(n - 1, gate, delta);
        if n == gate {
            assert((n - gate) % delta == 0) by {
                lemma_fundamental_div_mod_converse(0, delta, 0, 0);
            }
            assert((n - gate) / delta == 0) by {
                lemma_fundamental_div_mod_converse(0, delta, 0, 0);
            }
        } else if n > gate {
            let m = n - gate;
            let q = (m - 1) / delta;
            let r = (m - 1) % delta;
            lemma_fundamental_div_mod(m - 1, delta);
            lemma_mod_bound(m - 1, delta);
            if r + 1 == delta {
                assert(m == (q + 1) * delta + 0) by (nonlinear_arith)
                    requires m - 1 == delta * q + r, r + 1 == delta;
                lemma_fundamental_div_mod_converse(m, delta, q + 1, 0);
            } else {
                assert(m == q * delta + (r + 1)) by (nonlinear_arith)
                    requires m - 1 == delta * q + r;
                lemma_fundamental_div_mod_converse(m, delta, q, r + 1);
            }
        }
    }
}

/// The ring slot that holds element `k` of the window when the oldest
/// element sits in slot `s` of a ring of `g` slots.
pub open spec fn ring_slot(s: int, k: int, g: int) -> int {
    if s + k < g {
        s + k
    } else {
        s + k - g
    }
}

/// The sliding mean-square windower of one gating at one sample rate.
///
/// It keeps the squares of the most recent `gate_frames` input frames in a
/// ring buffer and, on each emission, recomputes their mean oldest to
/// newest.
pub struct GatedPowers {
    gate_frames: usize,
    delta_frames: usize,
    ring: Vec<Frame>,
    start: usize,
    phase: usize,
    active: bool,
    inputs: Ghost<Seq<Seq<u64>>>,
}

impl GatedPowers {
    /// The window length in frames.
    pub closed spec fn gate(&self) -> nat {
        self.gate_frames as nat
    }

    /// The hop in frames.
    pub closed spec fn delta(&self) -> nat {
        self.delta_frames as nat
    }

    /// Every frame consumed so far, oldest first.
    pub closed spec fn inputs(&self) -> Seq<Seq<u64>> {
        self.inputs@
    }

    pub closed spec fn wf(&self) -> bool {
        let n = self.inputs@.len() as int;
        let g = self.gate_frames as int;
        &&& self.gate_frames >= 1
        &&& self.delta_frames >= 1
        &&& (forall|j: int|
            0 <= j < n ==> (#[trigger] self.inputs@[j]).len() == MAX_CHANNELS)
        &&& (forall|j: int|
            0 <= j < self.ring@.len() ==> (#[trigger] self.ring@[j]).wf())
        &&& if !self.active {
            &&& n < g
            &&& self.ring@.len() == n
            &&& self.start == 0
            &&& self.phase == 0
            &&& (forall|k: int|
                0 <= k < n ==> (#[trigger] self.ring@[k])@ == frame_sq(self.inputs@[k]))
        } else {
            &&& n >= g
            &&& self.ring@.len() == g
            &&& self.start < g
            &&& self.phase as int == (n - g) % (self.delta_frames as int)
            &&& (forall|k: int|
                0 <= k < g ==> (#[trigger] self.ring@[ring_slot(self.start as int, k, g)])@
                    == frame_sq(self.inputs@[n - g + k]))
        }
    }

    /// Builds the windower of a gating at a sample rate. The derived frame
    /// counts must be at least one frame each and fit the machine.
    pub fn custom(gating: Gating, sample_rate: u32) -> (r: GatedPowers)
        requires
            gating.gate_len_ms * sample_rate <= u64::MAX,
            gating.delta_len_ms * sample_rate <= u64::MAX,
            1 <= ms_to_samples_spec(gating.gate_len_ms, sample_rate),
            ms_to_samples_spec(gating.gate_len_ms, sample_rate) <= usize::MAX,
            1 <= ms_to_samples_spec(gating.delta_len_ms, sample_rate),
            ms_to_samples_spec(gating.delta_len_ms, sample_rate) <= usize::MAX,
        ensures
            r.wf(),
            r.gate() == ms_to_samples_spec(gating.gate_len_ms, sample_rate),
            r.delta() == ms_to_samples_spec(gating.delta_len_ms, sample_rate),
            r.inputs() == Seq::<Seq<u64>>::empty(),
    {
        let gate_frames = Util::ms_to_samples(gating.gate_len_ms, sample_rate) as usize;
        let delta_frames = Util::ms_to_samples(gating.delta_len_ms, sample_rate) as usize;
        GatedPowers {
            gate_frames,
            delta_frames,
            ring: Vec::new(),
            start: 0,
            phase: 0,
            active: false,
            inputs: Ghost(Seq::empty()),
        }
    }

    /// The windower of the momentary gating: 400 ms window, 100 ms hop.
    pub fn momentary(sample_rate: u32) -> (r: GatedPowers)
        requires
            5 <= sample_rate,
            ms_to_samples_spec(400, sample_rate) <= usize::MAX,
            ms_to_samples_spec(100, sample_rate) <= usize::MAX,
        ensures
            r.wf(),
            r.gate() == ms_to_samples_spec(400, sample_rate),
            r.delta() == ms_to_samples_spec(100, sample_rate),
            r.inputs() == Seq::<Seq<u64>>::empty(),
    {
        proof {
            assert(400 * sample_rate <= u64::MAX && 100 * sample_rate <= u64::MAX) by (nonlinear_arith)
                requires sample_rate <= u32::MAX;
            assert(ms_to_samples_spec(400, sample_rate) >= 1 && ms_to_samples_spec(100, sample_rate)
                >= 1) by (nonlinear_arith)
                requires 5 <= sample_rate <= u32::MAX;
        }
        GatedPowers::custom(Gating::momentary(), sample_rate)
    }

    /// The windower of the short-term gating: 3000 ms window, 1000 ms hop.
    pub fn shortterm(sample_rate: u32) -> (r: GatedPowers)
        requires
            1 <= sample_rate,
            ms_to_samples_spec(3000, sample_rate) <= usize::MAX,
            ms_to_samples_spec(1000, sample_rate) <= usize::MAX,
        ensures
            r.wf(),
            r.gate() == ms_to_samples_spec(3000, sample_rate),
            r.delta() == ms_to_samples_spec(1000, sample_rate),
            r.inputs() == Seq::<Seq<u64>>::empty(),
    {
        proof {
            assert(3000 * sample_rate <= u64::MAX && 1000 * sample_rate <= u64::MAX)
                by (nonlinear_arith)
                requires sample_rate <= u32::MAX;
            assert(ms_to_samples_spec(3000, sample_rate) >= 1 && ms_to_samples_spec(
                1000,
                sample_rate,
            ) >= 1) by (nonlinear_arith)
                requires 1 <= sample_rate <= u32::MAX;
        }
        GatedPowers::custom(Gating::shortterm(), sample_rate)
    }


    /// Empties the window: the windower is as freshly built.
    pub fn reset(&mut self)
        requires
            old(self).wf(),
        ensures
            final(self).wf(),
            final(self).gate() == old(self).gate(),
            final(self).delta() == old(self).delta(),
            final(self).inputs() == Seq::<Seq<u64>>::empty(),
    {
        self.ring = Vec::new();
        self.start = 0;
        self.phase = 0;
        self.active = false;
        proof {
            self.inputs@ = Seq::empty();
        }
    }

    /// The mean of the squares currently held in the ring, oldest to
    /// newest.
    fn current_power(&self) -> (r: Frame)
        requires
            self.wf(),
            self.active,
        ensures
            r@ == window_power(self.inputs@, self.gate()),
            r.wf(),
    {
        let ghost n = self.inputs@.len() as int;
        let ghost g = self.gate_frames as int;
        let ghost win = self.inputs@.subrange(n - g, n);
        let mut acc = Frame::silent();
        let mut k: usize = 0;
        while k < self.gate_frames
            invariant
                self.wf(),
                self.active,
                n == self.inputs@.len() as int,
                g == self.gate_frames as int,
                win == self.inputs@.subrange(n - g, n),
                k <= self.gate_frames,
                acc.wf(),
                acc@ == sq_sum(win.take(k as int)),
            decreases self.gate_frames - k,
        {
            let j = if k < self.gate_frames - self.start {
                self.start + k
            } else {
                k - (self.gate_frames - self.start)
            };
            proof {
                assert(j as int == ring_slot(self.start as int, k as int, g));
                assert(self.ring@[j as int]@ == frame_sq(self.inputs@[n - g + k]));
                assert(win.take(k + 1).drop_last() =~= win.take(k as int));
                assert(win.take(k + 1).last() == self.inputs@[n - g + k]);
            }
            acc = acc.plus(&self.ring[j]);
            k = k + 1;
        }
        proof {
            assert(win.take(g) =~= win);
        }
        acc.scale_div(self.gate_frames as u64)
    }

    /// Consumes one frame. Exactly when input number `n` of the stream
    /// satisfies the emission rule, the windower returns the mean of the
    /// squares of the most recent `gate` frames.
    pub fn process(&mut self, input: &Frame) -> (r: Option<Frame>)
        requires
            old(self).wf(),
            input.wf(),
        ensures
            final(self).wf(),
            final(self).gate() == old(self).gate(),
            final(self).delta() == old(self).delta(),
            final(self).inputs() == old(self).inputs().push(input@),
            emits_at(
                final(self).inputs().len() as int,
                final(self).gate() as int,
                final(self).delta() as int,
            ) ==> (r matches Some(p) && p@ == window_power(final(self).inputs(), final(self).gate())
                && p.wf()),
            !emits_at(
                final(self).inputs().len() as int,
                final(self).gate() as int,
                final(self).delta() as int,
            ) ==> r is None,
    {
        let ghost n0 = self.inputs@.len() as int;
        let ghost g = self.gate_frames as int;
        let ghost d = self.delta_frames as int;
        let sq = input.squared();
        proof {
            self.inputs@ = self.inputs@.push(input@);
        }
        let ghost n1 = n0 + 1;
        if !self.active {
            self.ring.push(sq);
            if self.ring.len() == self.gate_frames {
                self.active = true;
                self.start = 0;
                self.phase = 0;
                proof {
                    assert(n1 == g);
                    assert((n1 - g) % d == 0) by {
                        lemma_fundamental_div_mod_converse(0, d, 0, 0);
                    }
                    assert forall|k: int| 0 <= k < g implies (#[trigger] self.ring@[ring_slot(
                        0,
                        k,
                        g,
                    )])@ == frame_sq(self.inputs@[n1 - g + k]) by {
                        assert(ring_slot(0, k, g) == k);
                    }
                    assert(self.wf());
                }
                let p = self.current_power();
                Some(p)
            } else {
                proof {
                    assert(n1 < g);
                    assert(!emits_at(n1, g, d));
                }
                None
            }
        } else {
            let ghost s0 = self.start as int;
            let ghost ring0 = self.ring@;
            self.ring.set(self.start, sq);
            self.start = if self.start + 1 == self.gate_frames {
                0
            } else {
                self.start + 1
            };
            self.phase = if self.phase + 1 == self.delta_frames {
                0
            } else {
                self.phase + 1
            };
            proof {
                let m = n0 - g;
                let q = m / d;
                let r0 = m % d;
                lemma_fundamental_div_mod(m, d);
                lemma_mod_bound(m, d);
                if r0 + 1 == d {
                    assert(m + 1 == (q + 1) * d + 0) by (nonlinear_arith)
                        requires m == d * q + r0, r0 + 1 == d;
                    lemma_fundamental_div_mod_converse(m + 1, d, q + 1, 0);
                } else {
                    assert(m + 1 == q * d + (r0 + 1)) by (nonlinear_arith)
                        requires m == d * q + r0;
                    lemma_fundamental_div_mod_converse(m + 1, d, q, r0 + 1);
                }
                assert(self.phase as int == (n1 - g) % d);
                let s1 = self.start as int;
                assert forall|k: int| 0 <= k < g implies (#[trigger] self.ring@[ring_slot(
                    s1,
                    k,
                    g,
                )])@ == frame_sq(self.inputs@[n1 - g + k]) by {
                    if k == g - 1 {
                        assert(ring_slot(s1, k, g) == s0);
                        assert(self.ring@[s0]@ == frame_sq(input@));
                    } else {
                        assert(ring_slot(s1, k, g) == ring_slot(s0, k + 1, g));
                        assert(ring_slot(s0, k + 1, g) != s0);
                        assert(self.ring@[ring_slot(s0, k + 1, g)] == ring0[ring_slot(
                            s0,
                            k + 1,
                            g,
                        )]);
                        assert(ring0[ring_slot(s0, k + 1, g)]@ == frame_sq(
                            self.inputs@[n0 - g + k + 1],
                        ));
                    }
                }
                assert(self.wf());
            }
            if self.phase == 0 {
                let p = self.current_power();
                Some(p)
            } else {
                proof {
                    assert(!emits_at(n1, g, d));
                }
                None
            }
        }
    }
}

} // verus!
