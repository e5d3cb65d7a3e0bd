//! One gated measurement: a power windower feeding a loudness aggregator,
//! for the integrated value or for the maximum over windows.

use vstd::prelude::*;

use crate::frame::Frame;
use crate::gating::{Gating, GatedPowers, emits_at, window_power};
use crate::loudness::{
    Loudness, WindowMax, retain, integrated_of, max_loudness, lemma_retain_len,
};
use crate::util::ms_to_samples_spec;

verus! {

/// The power frames the windower emits over a whole input stream, in
/// emission order.
pub open spec fn emissions(ins: Seq<Seq<u64>>, gate: nat, delta: nat) -> Seq<Seq<u64>>
    decreases ins.len(),
{
    if ins.len() == 0 {
        Seq::empty()
    } else {
        let pre = emissions(ins.drop_last(), gate, delta);
        if emits_at(ins.len() as int, gate as int, delta as int) {
            pre.push(window_power(ins, gate))
        } else {
            pre
        }
    }
}

/// No more power frames are emitted than frames were consumed.
pub proof fn lemma_emissions_len(ins: Seq<Seq<u64>>, gate: nat, delta: nat)
    ensures
        emissions(ins, gate, delta).len() <= ins.len(),
    decreases ins.len(),
{
    if ins.len() > 0 {
        lemma_emissions_len(ins.drop_last(), gate, delta);
    }
}

/// The windower's emissions over a stream are counted by
/// `emission_count`: together with its closed form, a stream of `n`
/// frames yields `(n - gate) / delta + 1` power frames once `n` reaches
/// the window length, and none before.
pub proof fn lemma_emissions_are_counted(ins: Seq<Seq<u64>>, gate: nat, delta: nat)
    ensures
        emissions(ins, gate, delta).len() == crate::gating::emission_count(
            ins.len() as int,
            gate as int,
            delta as int,
        ),
    decreases ins.len(),
{
    if ins.len() > 0 {
        lemma_emissions_are_counted(ins.drop_last(), gate, delta);
    }
}

/// A stream shorter than one window emits nothing.
pub proof fn lemma_emissions_empty(ins: Seq<Seq<u64>>, gate: nat, delta: nat)
    requires
        ins.len() < gate,
    ensures
        emissions(ins, gate, delta) == Seq::<Seq<u64>>::empty(),
    decreases ins.len(),
{
    if ins.len() > 0 {
        lemma_emissions_empty(ins.drop_last(), gate, delta);
    }
}

/// The integrated loudness of a whole input stream through one gated
/// measurement: the two-pass gating applied to the retained emissions.
pub open spec fn gated_integrated(g: Seq<u64>, ins: Seq<Seq<u64>>, gate: nat, delta: nat) -> Option<
    u64,
> {
    integrated_of(g, retain(emissions(ins, gate, delta), g))
}

/// The maximum window loudness of a whole input stream through one gated
/// measurement.
pub open spec fn gated_maximum(g: Seq<u64>, ins: Seq<Seq<u64>>, gate: nat, delta: nat) -> Option<
    u64,
> {
    max_loudness(emissions(ins, gate, delta), g)
}

/// Law: a stream shorter than one window yields no result, for the
/// integrated measurement and for the maximum alike.
pub proof fn lemma_short_stream_no_result(g: Seq<u64>, ins: Seq<Seq<u64>>, gate: nat, delta: nat)
    requires
        ins.len() < gate,
    ensures
        gated_integrated(g, ins, gate, delta) is None,
        gated_maximum(g, ins, gate, delta) is None,
{
    lemma_emissions_empty(ins, gate, delta);
}

/// An integrated-loudness measurement of one gating: the windower and the
/// two-pass aggregator, coupled so that the aggregator has retained
/// exactly the emissions of the stream so far.
pub struct GatedLoudness {
    gating: Gating,
    gated_powers: GatedPowers,
    loudness: Loudness,
}

impl GatedLoudness {
    /// The gating this measurement was built with.
    pub closed spec fn gating(&self) -> Gating {
        self.gating
    }

    /// The gating this measurement was built with.
    pub fn gating_value(&self) -> (g: Gating)
        ensures
            g == self.gating(),
    {
        self.gating
    }

    /// The per-channel weights of the loudness formula.
    pub closed spec fn g(&self) -> Seq<u64> {
        self.loudness.g()
    }

    /// The raw frames consumed so far.
    pub closed spec fn inputs(&self) -> Seq<Seq<u64>> {
        self.gated_powers.inputs()
    }

    /// The window length in frames.
    pub closed spec fn gate(&self) -> nat {
        self.gated_powers.gate()
    }

    /// The hop in frames.
    pub closed spec fn delta(&self) -> nat {
        self.gated_powers.delta()
    }

    pub closed spec fn wf(&self) -> bool {
        &&& self.gated_powers.wf()
        &&& self.loudness.wf()
        &&& self.loudness.retained() == retain(
            emissions(self.gated_powers.inputs(), self.gated_powers.gate(), self.gated_powers.delta()),
            self.loudness.g(),
        )
    }

    pub fn new(sample_rate: u32, g_weights: Frame, gating: Gating) -> (r: GatedLoudness)
        requires
            g_weights.wf(),
            gating.gate_len_ms * sample_rate <= u64::MAX,
            gating.delta_len_ms * sample_rate <= u64::MAX,
            1 <= ms_to_samples_spec(gating.gate_len_ms, sample_rate),
            ms_to_samples_spec(gating.gate_len_ms, sample_rate) <= usize::MAX,
            1 <= ms_to_samples_spec(gating.delta_len_ms, sample_rate),
            ms_to_samples_spec(gating.delta_len_ms, sample_rate) <= usize::MAX,
        ensures
            r.wf(),
            r.gating() == gating,
            r.g() == g_weights@,
            r.inputs() == Seq::<Seq<u64>>::empty(),
            r.gate() == ms_to_samples_spec(gating.gate_len_ms, sample_rate),
            r.delta() == ms_to_samples_spec(gating.delta_len_ms, sample_rate),
    {
        GatedLoudness {
            gating,
            gated_powers: GatedPowers::custom(gating, sample_rate),
            loudness: Loudness::new(g_weights),
        }
    }

    /// The integrated measurement of the momentary gating.
    pub fn momentary(sample_rate: u32, g_weights: Frame) -> (r: GatedLoudness)
        requires
            g_weights.wf(),
            5 <= sample_rate,
            ms_to_samples_spec(400, sample_rate) <= usize::MAX,
            ms_to_samples_spec(100, sample_rate) <= usize::MAX,
        ensures
            r.wf(),
            r.gating() == crate::gating::momentary_gating(),
            r.g() == g_weights@,
            r.inputs() == Seq::<Seq<u64>>::empty(),
    {
        proof {
            assert(400 * sample_rate <= u64::MAX && 100 * sample_rate <= u64::MAX)
                by (nonlinear_arith)
                requires sample_rate <= u32::MAX;
            assert(ms_to_samples_spec(400, sample_rate) >= 1 && ms_to_samples_spec(100, sample_rate)
                >= 1) by (nonlinear_arith)
                requires 5 <= sample_rate <= u32::MAX;
        }
        GatedLoudness::new(sample_rate, g_weights, Gating::momentary())
    }

    /// The integrated measurement of the short-term gating.
    pub fn shortterm(sample_rate: u32, g_weights: Frame) -> (r: GatedLoudness)
        requires
            g_weights.wf(),
            1 <= sample_rate,
            ms_to_samples_spec(3000, sample_rate) <= usize::MAX,
            ms_to_samples_spec(1000, sample_rate) <= usize::MAX,
        ensures
            r.wf(),
            r.gating() == crate::gating::shortterm_gating(),
            r.g() == g_weights@,
            r.inputs() == Seq::<Seq<u64>>::empty(),
    {
        proof {
            assert(3000 * sample_rate <= u64::MAX && 1000 * sample_rate <= u64::MAX)
                by (nonlinear_arith)
                requires sample_rate <= u32::MAX;
            assert(ms_to_samples_spec(3000, sample_rate) >= 1 && ms_to_samples_spec(
                1000,
                sample_rate,
            ) >= 1) by (nonlinear_arith)
                requires 1 <= sample_rate <= u32::MAX;
        }
        GatedLoudness::new(sample_rate, g_weights, Gating::shortterm())
    }

    /// The integrated measurement of a custom gating.
    pub fn custom(sample_rate: u32, g_weights: Frame, gate_len_ms: u64, delta_len_ms: u64) -> (r:
        GatedLoudness)
        requires
            g_weights.wf(),
            gate_len_ms * sample_rate <= u64::MAX,
            delta_len_ms * sample_rate <= u64::MAX,
            1 <= ms_to_samples_spec(gate_len_ms, sample_rate),
            ms_to_samples_spec(gate_len_ms, sample_rate) <= usize::MAX,
            1 <= ms_to_samples_spec(delta_len_ms, sample_rate),
            ms_to_samples_spec(delta_len_ms, sample_rate) <= usize::MAX,
        ensures
            r.wf(),
            r.gating() == (Gating { gate_len_ms, delta_len_ms }),
            r.g() == g_weights@,
            r.inputs() == Seq::<Seq<u64>>::empty(),
    {
        GatedLoudness::new(sample_rate, g_weights, Gating { gate_len_ms, delta_len_ms })
    }

    /// Consumes one raw frame; on an emission the aggregator advances.
    pub fn push(&mut self, input: &Frame)
        requires
            old(self).wf(),
            input.wf(),
            old(self).inputs().len() < u64::MAX,
        ensures
            final(self).wf(),
            final(self).gating() == old(self).gating(),
            final(self).g() == old(self).g(),
            final(self).gate() == old(self).gate(),
            final(self).delta() == old(self).delta(),
            final(self).inputs() == old(self).inputs().push(input@),
    {
        let ghost ins0 = self.gated_powers.inputs();
        let ghost gate = self.gated_powers.gate();
        let ghost delta = self.gated_powers.delta();
        let ghost g = self.loudness.g();
        proof {
            lemma_emissions_len(ins0, gate, delta);
            lemma_retain_len(emissions(ins0, gate, delta), g);
        }
        let emitted = self.gated_powers.process(input);
        proof {
            assert(ins0.push(input@).drop_last() =~= ins0);
        }
        match emitted {
            Some(gp) => {
                let ghost emis1 = emissions(ins0.push(input@), gate, delta);
                proof {
                    assert(emis1 == emissions(ins0, gate, delta).push(gp@));
                    assert(emis1.drop_last() =~= emissions(ins0, gate, delta));
                }
                self.loudness.push(&gp);
            },
            None => {},
        }
    }

    /// Empties the measurement: it is as freshly built with the same
    /// configuration.
    pub fn reset(&mut self)
        requires
            old(self).wf(),
        ensures
            final(self).wf(),
            final(self).gating() == old(self).gating(),
            final(self).g() == old(self).g(),
            final(self).gate() == old(self).gate(),
            final(self).delta() == old(self).delta(),
            final(self).inputs() == Seq::<Seq<u64>>::empty(),
    {
        self.gated_powers.reset();
        self.loudness.reset();
    }

    /// The integrated loudness of everything consumed.
    pub fn calculate(self) -> (r: Option<u64>)
        requires
            self.wf(),
        ensures
            r == gated_integrated(self.g(), self.inputs(), self.gate(), self.delta()),
    {
        let GatedLoudness { gating, gated_powers, loudness } = self;
        loudness.calculate()
    }
}

/// A maximum-over-windows measurement of one gating: the windower and the
/// running maximum, coupled so that the maximum has seen exactly the
/// emissions of the stream so far.
pub struct GatedMax {
    gating: Gating,
    gated_powers: GatedPowers,
    window_max: WindowMax,
}

impl GatedMax {
    /// The gating this measurement was built with.
    pub closed spec fn gating(&self) -> Gating {
        self.gating
    }

    /// The gating this measurement was built with.
    pub fn gating_value(&self) -> (g: Gating)
        ensures
            g == self.gating(),
    {
        self.gating
    }

    /// The per-channel weights of the loudness formula.
    pub closed spec fn g(&self) -> Seq<u64> {
        self.window_max.g()
    }

    /// The raw frames consumed so far.
    pub closed spec fn inputs(&self) -> Seq<Seq<u64>> {
        self.gated_powers.inputs()
    }

    /// The window length in frames.
    pub closed spec fn gate(&self) -> nat {
        self.gated_powers.gate()
    }

    /// The hop in frames.
    pub closed spec fn delta(&self) -> nat {
        self.gated_powers.delta()
    }

    pub closed spec fn wf(&self) -> bool {
        &&& self.gated_powers.wf()
        &&& self.window_max.wf()
        &&& self.window_max.powers() == emissions(
            self.gated_powers.inputs(),
            self.gated_powers.gate(),
            self.gated_powers.delta(),
        )
    }

    pub fn new(sample_rate: u32, g_weights: Frame, gating: Gating) -> (r: GatedMax)
        requires
            g_weights.wf(),
            gating.gate_len_ms * sample_rate <= u64::MAX,
            gating.delta_len_ms * sample_rate <= u64::MAX,
            1 <= ms_to_samples_spec(gating.gate_len_ms, sample_rate),
            ms_to_samples_spec(gating.gate_len_ms, sample_rate) <= usize::MAX,
            1 <= ms_to_samples_spec(gating.delta_len_ms, sample_rate),
            ms_to_samples_spec(gating.delta_len_ms, sample_rate) <= usize::MAX,
        ensures
            r.wf(),
            r.gating() == gating,
            r.g() == g_weights@,
            r.inputs() == Seq::<Seq<u64>>::empty(),
            r.gate() == ms_to_samples_spec(gating.gate_len_ms, sample_rate),
            r.delta() == ms_to_samples_spec(gating.delta_len_ms, sample_rate),
    {
        GatedMax {
            gating,
            gated_powers: GatedPowers::custom(gating, sample_rate),
            window_max: WindowMax::new(g_weights),
        }
    }

    /// Consumes one raw frame; on an emission the running maximum
    /// advances.
    pub fn push(&mut self, input: &Frame)
        requires
            old(self).wf(),
            input.wf(),
        ensures
            final(self).wf(),
            final(self).gating() == old(self).gating(),
            final(self).g() == old(self).g(),
            final(self).gate() == old(self).gate(),
            final(self).delta() == old(self).delta(),
            final(self).inputs() == old(self).inputs().push(input@),
    {
        let ghost ins0 = self.gated_powers.inputs();
        let ghost gate = self.gated_powers.gate();
        let ghost delta = self.gated_powers.delta();
        let emitted = self.gated_powers.process(input);
        proof {
            assert(ins0.push(input@).drop_last() =~= ins0);
        }
        match emitted {
            Some(gp) => {
                self.window_max.push(&gp);
            },
            None => {},
        }
    }

    /// Empties the measurement: it is as freshly built with the same
    /// configuration.
    pub fn reset(&mut self)
        requires
            old(self).wf(),
        ensures
            final(self).wf(),
            final(self).gating() == old(self).gating(),
            final(self).g() == old(self).g(),
            final(self).gate() == old(self).gate(),
            final(self).delta() == old(self).delta(),
            final(self).inputs() == Seq::<Seq<u64>>::empty(),
    {
        self.gated_powers.reset();
        self.window_max.reset();
    }

    /// The largest window loudness of everything consumed.
    pub fn calculate(self) -> (r: Option<u64>)
        requires
            self.wf(),
        ensures
            r == gated_maximum(self.g(), self.inputs(), self.gate(), self.delta()),
    {
        let GatedMax { gating, gated_powers, window_max } = self;
        window_max.calculate()
    }
}

} // verus!
