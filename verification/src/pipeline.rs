//! The measurement pipeline: a K-filter fanning out into any number of
//! gated measurements, and a stack of such layers so that nested programs
//! (tracks within an album) accumulate concurrently over one frame
//! stream.

use vstd::prelude::*;

use crate::frame::Frame;
use crate::filter::{KWeightFilter, kw_outs};
use crate::gated_loudness::{GatedLoudness, GatedMax, gated_integrated, gated_maximum};
use crate::gating::Gating;
use crate::util::{Util, ms_to_samples_spec};

verus! {

/// A configuration the builder rejects, reported before any pipeline is
/// built.
#[derive(Debug, Copy, Clone, PartialEq, Eq, Structural)]
pub enum Error {
    /// The sample rate was zero.
    InvalidSampleRate(u32),
    /// A registered gating has a zero hop, a window that is not a
    /// positive multiple of the hop, or derived frame counts that do not
    /// come to at least one sample each within the machine's limits.
    InvalidGating(Gating),
    /// Neither an average nor a maximum measurement was registered.
    NoMeasurements,
}

/// Whether a gating can be measured at a sample rate: it is valid in
/// milliseconds and both derived frame counts are at least one sample and
/// fit the machine.
pub open spec fn gating_fits(gating: Gating, sample_rate: u32) -> bool {
    &&& gating.valid()
    &&& gating.gate_len_ms * sample_rate <= u64::MAX
    &&& gating.delta_len_ms * sample_rate <= u64::MAX
    &&& 1 <= ms_to_samples_spec(gating.gate_len_ms, sample_rate)
    &&& ms_to_samples_spec(gating.gate_len_ms, sample_rate) <= usize::MAX
    &&& 1 <= ms_to_samples_spec(gating.delta_len_ms, sample_rate)
    &&& ms_to_samples_spec(gating.delta_len_ms, sample_rate) <= usize::MAX
}

/// The integrated loudness a layer reports for one gating: the two-pass
/// gating over the K-filtered stream.
pub open spec fn layer_average_result(
    sample_rate: u32,
    g: Seq<u64>,
    ins: Seq<Seq<u64>>,
    gating: Gating,
) -> Option<u64> {
    gated_integrated(
        g,
        kw_outs(sample_rate, ins),
        ms_to_samples_spec(gating.gate_len_ms, sample_rate) as nat,
        ms_to_samples_spec(gating.delta_len_ms, sample_rate) as nat,
    )
}

/// The maximum window loudness a layer reports for one gating.
pub open spec fn layer_maximum_result(
    sample_rate: u32,
    g: Seq<u64>,
    ins: Seq<Seq<u64>>,
    gating: Gating,
) -> Option<u64> {
    gated_maximum(
        g,
        kw_outs(sample_rate, ins),
        ms_to_samples_spec(gating.gate_len_ms, sample_rate) as nat,
        ms_to_samples_spec(gating.delta_len_ms, sample_rate) as nat,
    )
}

/// Law: a layer that consumed fewer frames than one window of a gating
/// reports no result for that gating, for the integrated measurement and
/// for the maximum alike.
pub proof fn lemma_short_stream_layer(
    sample_rate: u32,
    g: Seq<u64>,
    ins: Seq<Seq<u64>>,
    gating: Gating,
)
    requires
        ins.len() < ms_to_samples_spec(gating.gate_len_ms, sample_rate),
    ensures
        layer_average_result(sample_rate, g, ins, gating) is None,
        layer_maximum_result(sample_rate, g, ins, gating) is None,
{
    crate::gated_loudness::lemma_short_stream_no_result(
        g,
        kw_outs(sample_rate, ins),
        ms_to_samples_spec(gating.gate_len_ms, sample_rate) as nat,
        ms_to_samples_spec(gating.delta_len_ms, sample_rate) as nat,
    );
}

/// The results of one finalized layer: per registered gating, the
/// integrated loudness or the maximum over windows, or no result.
#[derive(Debug, Clone)]
pub struct Output {
    pub averages: Vec<(Gating, Option<u64>)>,
    pub maximums: Vec<(Gating, Option<u64>)>,
}

/// Whether an output holds exactly the results of a layer with the given
/// configuration over the given raw frame stream. Everything in it is a
/// function of the configuration and the stream alone.
pub open spec fn output_matches(
    out: Output,
    sample_rate: u32,
    g: Seq<u64>,
    avgs: Seq<Gating>,
    maxs: Seq<Gating>,
    ins: Seq<Seq<u64>>,
) -> bool {
    &&& out.averages@.len() == avgs.len()
    &&& (forall|i: int|
        0 <= i < avgs.len() ==> #[trigger] out.averages@[i] == (
            avgs[i],
            layer_average_result(sample_rate, g, ins, avgs[i]),
        ))
    &&& out.maximums@.len() == maxs.len()
    &&& (forall|i: int|
        0 <= i < maxs.len() ==> #[trigger] out.maximums@[i] == (
            maxs[i],
            layer_maximum_result(sample_rate, g, ins, maxs[i]),
        ))
}

/// Law: the pipeline is deterministic. Any two outputs of layers with the
/// same configuration that consumed the same frame stream hold the same
/// results, whichever pipeline instance produced them.
pub proof fn lemma_output_deterministic(
    o1: Output,
    o2: Output,
    sample_rate: u32,
    g: Seq<u64>,
    avgs: Seq<Gating>,
    maxs: Seq<Gating>,
    ins: Seq<Seq<u64>>,
)
    requires
        output_matches(o1, sample_rate, g, avgs, maxs, ins),
        output_matches(o2, sample_rate, g, avgs, maxs, ins),
    ensures
        o1.averages@ == o2.averages@,
        o1.maximums@ == o2.maximums@,
{
    assert(o1.averages@ =~= o2.averages@);
    assert(o1.maximums@ =~= o2.maximums@);
}

/// One layer: a K-filter of its own and one measurement per registered
/// gating, all fed from the same filtered stream.
pub struct PipelineLayer {
    k_filter: KWeightFilter,
    g_weights: Frame,
    avg_gls: Vec<GatedLoudness>,
    max_gls: Vec<GatedMax>,
}

impl PipelineLayer {
    /// The sample rate of the layer's filter and measurements.
    pub closed spec fn sr(&self) -> u32 {
        self.k_filter.sr()
    }

    /// The per-channel weights of the loudness formula.
    pub closed spec fn g(&self) -> Seq<u64> {
        self.g_weights@
    }

    /// The raw frames this layer has consumed.
    pub closed spec fn inputs(&self) -> Seq<Seq<u64>> {
        self.k_filter.inputs()
    }

    /// The gatings measured for their integrated loudness, in
    /// registration order.
    pub closed spec fn avg_gatings(&self) -> Seq<Gating> {
        self.avg_gls@.map(|i: int, gl: GatedLoudness| gl.gating())
    }

    /// The gatings measured for their maximum window loudness.
    pub closed spec fn max_gatings(&self) -> Seq<Gating> {
        self.max_gls@.map(|i: int, gl: GatedMax| gl.gating())
    }

    pub closed spec fn wf(&self) -> bool {
        &&& self.k_filter.wf()
        &&& self.g_weights.wf()
        &&& (forall|i: int|
            0 <= i < self.avg_gls@.len() ==> {
                let gl = #[trigger] self.avg_gls@[i];
                &&& gl.wf()
                &&& gl.g() == self.g_weights@
                &&& gl.inputs() == kw_outs(self.k_filter.sr(), self.k_filter.inputs())
                &&& gating_fits(gl.gating(), self.k_filter.sr())
                &&& gl.gate() == ms_to_samples_spec(gl.gating().gate_len_ms, self.k_filter.sr())
                &&& gl.delta() == ms_to_samples_spec(gl.gating().delta_len_ms, self.k_filter.sr())
            })
        &&& (forall|i: int|
            0 <= i < self.max_gls@.len() ==> {
                let gl = #[trigger] self.max_gls@[i];
                &&& gl.wf()
                &&& gl.g() == self.g_weights@
                &&& gl.inputs() == kw_outs(self.k_filter.sr(), self.k_filter.inputs())
                &&& gating_fits(gl.gating(), self.k_filter.sr())
                &&& gl.gate() == ms_to_samples_spec(gl.gating().gate_len_ms, self.k_filter.sr())
                &&& gl.delta() == ms_to_samples_spec(gl.gating().delta_len_ms, self.k_filter.sr())
            })
    }

    /// Builds a fresh layer for one configuration.
    pub fn new(sample_rate: u32, g_weights: &Frame, avgs: &Vec<Gating>, maxs: &Vec<Gating>) -> (r:
        PipelineLayer)
        requires
            g_weights.wf(),
            forall|i: int| 0 <= i < avgs@.len() ==> gating_fits(#[trigger] avgs@[i], sample_rate),
            forall|i: int| 0 <= i < maxs@.len() ==> gating_fits(#[trigger] maxs@[i], sample_rate),
        ensures
            r.wf(),
            r.sr() == sample_rate,
            r.g() == g_weights@,
            r.inputs() == Seq::<Seq<u64>>::empty(),
            r.avg_gatings() == avgs@,
            r.max_gatings() == maxs@,
    {
        let k_filter = KWeightFilter::new(sample_rate);
        let mut avg_gls: Vec<GatedLoudness> = Vec::new();
        let mut i: usize = 0;
        while i < avgs.len()
            invariant
                g_weights.wf(),
                i <= avgs@.len(),
                forall|j: int| 0 <= j < avgs@.len() ==> gating_fits(#[trigger] avgs@[j], sample_rate),
                avg_gls@.len() == i,
                forall|j: int|
                    0 <= j < i ==> {
                        let gl = #[trigger] avg_gls@[j];
                        &&& gl.wf()
                        &&& gl.g() == g_weights@
                        &&& gl.inputs() == Seq::<Seq<u64>>::empty()
                        &&& gl.gating() == avgs@[j]
                        &&& gl.gate() == ms_to_samples_spec(avgs@[j].gate_len_ms, sample_rate)
                        &&& gl.delta() == ms_to_samples_spec(avgs@[j].delta_len_ms, sample_rate)
                    },
            decreases avgs@.len() - i,
        {
            avg_gls.push(GatedLoudness::new(sample_rate, g_weights.duplicate(), avgs[i]));
            i = i + 1;
        }
        let mut max_gls: Vec<GatedMax> = Vec::new();
        let mut i: usize = 0;
        while i < maxs.len()
            invariant
                g_weights.wf(),
                i <= maxs@.len(),
                forall|j: int| 0 <= j < maxs@.len() ==> gating_fits(#[trigger] maxs@[j], sample_rate),
                max_gls@.len() == i,
                forall|j: int|
                    0 <= j < i ==> {
                        let gl = #[trigger] max_gls@[j];
                        &&& gl.wf()
                        &&& gl.g() == g_weights@
                        &&& gl.inputs() == Seq::<Seq<u64>>::empty()
                        &&& gl.gating() == maxs@[j]
                        &&& gl.gate() == ms_to_samples_spec(maxs@[j].gate_len_ms, sample_rate)
                        &&& gl.delta() == ms_to_samples_spec(maxs@[j].delta_len_ms, sample_rate)
                    },
            decreases maxs@.len() - i,
        {
            max_gls.push(GatedMax::new(sample_rate, g_weights.duplicate(), maxs[i]));
            i = i + 1;
        }
        let r = PipelineLayer { k_filter, g_weights: g_weights.duplicate(), avg_gls, max_gls };
        proof {
            assert(kw_outs(sample_rate, Seq::<Seq<u64>>::empty()) =~= Seq::<Seq<u64>>::empty());
            assert(r.avg_gatings() =~= avgs@);
            assert(r.max_gatings() =~= maxs@);
        }
        r
    }

    /// Passes one frame through the K-filter and feeds the filtered frame
    /// to every measurement.
    pub fn push(&mut self, input: &Frame)
        requires
            old(self).wf(),
            input.wf(),
            old(self).inputs().len() < u64::MAX,
        ensures
            final(self).wf(),
            final(self).sr() == old(self).sr(),
            final(self).g() == old(self).g(),
            final(self).avg_gatings() == old(self).avg_gatings(),
            final(self).max_gatings() == old(self).max_gatings(),
            final(self).inputs() == old(self).inputs().push(input@),
    {
        let ghost sr = self.k_filter.sr();
        let ghost kw0 = kw_outs(sr, self.k_filter.inputs());
        let filtered = self.k_filter.process(input);
        let ghost kw1 = kw_outs(sr, self.k_filter.inputs());
        let ghost kf1 = self.k_filter;
        let ghost gw0 = self.g_weights;
        let ghost avg0 = self.avg_gls@;
        let ghost max0 = self.max_gls@;
        let mut i: usize = 0;
        while i < self.avg_gls.len()
            invariant
                self.k_filter == kf1,
                self.g_weights == gw0,
                self.max_gls@ == max0,
                filtered.wf(),
                filtered@ == kw1.last(),
                kw1 == kw0.push(filtered@),
                kw0.len() < u64::MAX,
                self.avg_gls@.len() == avg0.len(),
                i <= avg0.len(),
                forall|j: int| i <= j < avg0.len() ==> #[trigger] self.avg_gls@[j] == avg0[j],
                forall|j: int|
                    0 <= j < avg0.len() ==> {
                        let gl = #[trigger] avg0[j];
                        &&& gl.wf()
                        &&& gl.inputs() == kw0
                    },
                forall|j: int|
                    0 <= j < i ==> {
                        let gl = #[trigger] self.avg_gls@[j];
                        &&& gl.wf()
                        &&& gl.inputs() == kw1
                        &&& gl.g() == avg0[j].g()
                        &&& gl.gating() == avg0[j].gating()
                        &&& gl.gate() == avg0[j].gate()
                        &&& gl.delta() == avg0[j].delta()
                    },
            decreases avg0.len() - i,
        {
            let mut gl = self.avg_gls.remove(i);
            gl.push(&filtered);
            self.avg_gls.insert(i, gl);
            i = i + 1;
        }
        let ghost avg1 = self.avg_gls@;
        let mut i: usize = 0;
        while i < self.max_gls.len()
            invariant
                self.k_filter == kf1,
                self.g_weights == gw0,
                self.avg_gls@ == avg1,
                avg1.len() == avg0.len(),
                forall|j: int|
                    0 <= j < avg1.len() ==> {
                        let gl = #[trigger] avg1[j];
                        &&& gl.wf()
                        &&& gl.inputs() == kw1
                        &&& gl.g() == avg0[j].g()
                        &&& gl.gating() == avg0[j].gating()
                        &&& gl.gate() == avg0[j].gate()
                        &&& gl.delta() == avg0[j].delta()
                    },
                filtered.wf(),
                filtered@ == kw1.last(),
                kw1 == kw0.push(filtered@),
                self.max_gls@.len() == max0.len(),
                i <= max0.len(),
                forall|j: int| i <= j < max0.len() ==> #[trigger] self.max_gls@[j] == max0[j],
                forall|j: int|
                    0 <= j < max0.len() ==> {
                        let gl = #[trigger] max0[j];
                        &&& gl.wf()
                        &&& gl.inputs() == kw0
                    },
                forall|j: int|
                    0 <= j < i ==> {
                        let gl = #[trigger] self.max_gls@[j];
                        &&& gl.wf()
                        &&& gl.inputs() == kw1
                        &&& gl.g() == max0[j].g()
                        &&& gl.gating() == max0[j].gating()
                        &&& gl.gate() == max0[j].gate()
                        &&& gl.delta() == max0[j].delta()
                    },
            decreases max0.len() - i,
        {
            let mut gl = self.max_gls.remove(i);
            gl.push(&filtered);
            self.max_gls.insert(i, gl);
            i = i + 1;
        }
        proof {
            assert(self.avg_gatings() =~= old(self).avg_gatings());
            assert(self.max_gatings() =~= old(self).max_gatings());
        }
    }

    /// Returns the layer to the state of a freshly built layer of the
    /// same configuration.
    pub fn reset(&mut self)
        requires
            old(self).wf(),
        ensures
            final(self).wf(),
            final(self).sr() == old(self).sr(),
            final(self).g() == old(self).g(),
            final(self).avg_gatings() == old(self).avg_gatings(),
            final(self).max_gatings() == old(self).max_gatings(),
            final(self).inputs() == Seq::<Seq<u64>>::empty(),
    {
        self.k_filter.reset();
        let ghost kf1 = self.k_filter;
        let ghost gw0 = self.g_weights;
        let ghost avg0 = self.avg_gls@;
        let ghost max0 = self.max_gls@;
        let mut i: usize = 0;
        while i < self.avg_gls.len()
            invariant
                self.k_filter == kf1,
                self.g_weights == gw0,
                self.max_gls@ == max0,
                self.avg_gls@.len() == avg0.len(),
                i <= avg0.len(),
                forall|j: int| i <= j < avg0.len() ==> #[trigger] self.avg_gls@[j] == avg0[j],
                forall|j: int| 0 <= j < avg0.len() ==> (#[trigger] avg0[j]).wf(),
                forall|j: int|
                    0 <= j < i ==> {
                        let gl = #[trigger] self.avg_gls@[j];
                        &&& gl.wf()
                        &&& gl.inputs() == Seq::<Seq<u64>>::empty()
                        &&& gl.g() == avg0[j].g()
                        &&& gl.gating() == avg0[j].gating()
                        &&& gl.gate() == avg0[j].gate()
                        &&& gl.delta() == avg0[j].delta()
                    },
            decreases avg0.len() - i,
        {
            let mut gl = self.avg_gls.remove(i);
            gl.reset();
            self.avg_gls.insert(i, gl);
            i = i + 1;
        }
        let ghost avg1 = self.avg_gls@;
        let mut i: usize = 0;
        while i < self.max_gls.len()
            invariant
                self.k_filter == kf1,
                self.g_weights == gw0,
                self.avg_gls@ == avg1,
                avg1.len() == avg0.len(),
                forall|j: int|
                    0 <= j < avg1.len() ==> {
                        let gl = #[trigger] avg1[j];
                        &&& gl.wf()
                        &&& gl.inputs() == Seq::<Seq<u64>>::empty()
                        &&& gl.g() == avg0[j].g()
                        &&& gl.gating() == avg0[j].gating()
                        &&& gl.gate() == avg0[j].gate()
                        &&& gl.delta() == avg0[j].delta()
                    },
                self.max_gls@.len() == max0.len(),
                i <= max0.len(),
                forall|j: int| i <= j < max0.len() ==> #[trigger] self.max_gls@[j] == max0[j],
                forall|j: int| 0 <= j < max0.len() ==> (#[trigger] max0[j]).wf(),
                forall|j: int|
                    0 <= j < i ==> {
                        let gl = #[trigger] self.max_gls@[j];
                        &&& gl.wf()
                        &&& gl.inputs() == Seq::<Seq<u64>>::empty()
                        &&& gl.g() == max0[j].g()
                        &&& gl.gating() == max0[j].gating()
                        &&& gl.gate() == max0[j].gate()
                        &&& gl.delta() == max0[j].delta()
                    },
            decreases max0.len() - i,
        {
            let mut gl = self.max_gls.remove(i);
            gl.reset();
            self.max_gls.insert(i, gl);
            i = i + 1;
        }
        proof {
            assert(kw_outs(old(self).sr(), Seq::<Seq<u64>>::empty()) =~= Seq::<Seq<u64>>::empty());
            assert(self.avg_gatings() =~= old(self).avg_gatings());
            assert(self.max_gatings() =~= old(self).max_gatings());
        }
    }

    /// Whether this layer measures nothing.
    pub fn is_noop(&self) -> (r: bool)
        ensures
            r == (self.avg_gatings().len() == 0 && self.max_gatings().len() == 0),
    {
        self.avg_gls.len() == 0 && self.max_gls.len() == 0
    }

    /// Finalizes the layer: per gating, the integrated loudness and the
    /// maximum window loudness of everything consumed.
    pub fn calculate(self) -> (r: Output)
        requires
            self.wf(),
        ensures
            output_matches(
                r,
                self.sr(),
                self.g(),
                self.avg_gatings(),
                self.max_gatings(),
                self.inputs(),
            ),
    {
        let ghost sr = self.sr();
        let ghost g = self.g();
        let ghost ins = self.inputs();
        let ghost avgs = self.avg_gatings();
        let ghost maxs = self.max_gatings();
        let PipelineLayer { k_filter, g_weights, avg_gls, max_gls } = self;
        let mut avg_gls = avg_gls;
        let mut max_gls = max_gls;
        let mut averages: Vec<(Gating, Option<u64>)> = Vec::new();
        let ghost avg0 = avg_gls@;
        let ghost mut i: int = 0;
        while avg_gls.len() > 0
            invariant
                i <= avg0.len(),
                avg_gls@.len() + i == avg0.len(),
                forall|j: int| 0 <= j < avg_gls@.len() ==> #[trigger] avg_gls@[j] == avg0[j + i],
                forall|j: int|
                    0 <= j < avg0.len() ==> {
                        let gl = #[trigger] avg0[j];
                        &&& gl.wf()
                        &&& gl.g() == g
                        &&& gl.inputs() == kw_outs(sr, ins)
                        &&& gl.gating() == avgs[j]
                        &&& gl.gate() == ms_to_samples_spec(avgs[j].gate_len_ms, sr)
                        &&& gl.delta() == ms_to_samples_spec(avgs[j].delta_len_ms, sr)
                    },
                avgs.len() == avg0.len(),
                averages@.len() == i,
                forall|j: int|
                    0 <= j < i ==> #[trigger] averages@[j] == (
                        avgs[j],
                        layer_average_result(sr, g, ins, avgs[j]),
                    ),
            decreases avg_gls@.len(),
        {
            let gl = avg_gls.remove(0);
            let gating = gl.gating_value();
            let result = gl.calculate();
            averages.push((gating, result));
            proof {
                i = i + 1;
            }
        }
        let mut maximums: Vec<(Gating, Option<u64>)> = Vec::new();
        let ghost max0 = max_gls@;
        let ghost mut i: int = 0;
        while max_gls.len() > 0
            invariant
                i <= max0.len(),
                max_gls@.len() + i == max0.len(),
                forall|j: int| 0 <= j < max_gls@.len() ==> #[trigger] max_gls@[j] == max0[j + i],
                forall|j: int|
                    0 <= j < max0.len() ==> {
                        let gl = #[trigger] max0[j];
                        &&& gl.wf()
                        &&& gl.g() == g
                        &&& gl.inputs() == kw_outs(sr, ins)
                        &&& gl.gating() == maxs[j]
                        &&& gl.gate() == ms_to_samples_spec(maxs[j].gate_len_ms, sr)
                        &&& gl.delta() == ms_to_samples_spec(maxs[j].delta_len_ms, sr)
                    },
                maxs.len() == max0.len(),
                maximums@.len() == i,
                forall|j: int|
                    0 <= j < i ==> #[trigger] maximums@[j] == (
                        maxs[j],
                        layer_maximum_result(sr, g, ins, maxs[j]),
                    ),
            decreases max_gls@.len(),
        {
            let gl = max_gls.remove(0);
            let gating = gl.gating_value();
            let result = gl.calculate();
            maximums.push((gating, result));
            proof {
                i = i + 1;
            }
        }
        Output { averages, maximums }
    }
}


/// A stack of layers sharing one configuration. Every pushed frame is
/// broadcast to every layer, so nested programs (an album and its
/// current track) accumulate concurrently; popping finalizes the top
/// layer alone.
pub struct Pipeline {
    sample_rate: u32,
    g_weights: Frame,
    avg_gatings: Vec<Gating>,
    max_gatings: Vec<Gating>,
    layers: Vec<PipelineLayer>,
}

impl Pipeline {
    /// The shared sample rate.
    pub closed spec fn sr(&self) -> u32 {
        self.sample_rate
    }

    /// The shared per-channel weights.
    pub closed spec fn g(&self) -> Seq<u64> {
        self.g_weights@
    }

    /// The gatings measured for their integrated loudness.
    pub closed spec fn avg_gatings(&self) -> Seq<Gating> {
        self.avg_gatings@
    }

    /// The gatings measured for their maximum window loudness.
    pub closed spec fn max_gatings(&self) -> Seq<Gating> {
        self.max_gatings@
    }

    /// Per layer, bottom of the stack first, the raw frames it has
    /// consumed.
    pub closed spec fn layer_inputs(&self) -> Seq<Seq<Seq<u64>>> {
        self.layers@.map(|i: int, l: PipelineLayer| l.inputs())
    }

    pub closed spec fn wf(&self) -> bool {
        &&& self.g_weights.wf()
        &&& self.sample_rate >= 1
        &&& (forall|i: int|
            0 <= i < self.avg_gatings@.len() ==> gating_fits(
                #[trigger] self.avg_gatings@[i],
                self.sample_rate,
            ))
        &&& (forall|i: int|
            0 <= i < self.max_gatings@.len() ==> gating_fits(
                #[trigger] self.max_gatings@[i],
                self.sample_rate,
            ))
        &&& (forall|i: int|
            0 <= i < self.layers@.len() ==> {
                let l = #[trigger] self.layers@[i];
                &&& l.wf()
                &&& l.sr() == self.sample_rate
                &&& l.g() == self.g_weights@
                &&& l.avg_gatings() == self.avg_gatings@
                &&& l.max_gatings() == self.max_gatings@
            })
    }

    /// Whether every layer can take one more frame within the machine's
    /// limits.
    pub open spec fn can_push(&self) -> bool {
        forall|i: int|
            0 <= i < self.layer_inputs().len() ==> (#[trigger] self.layer_inputs()[i]).len()
                < u64::MAX
    }

    /// Pushes a fresh layer onto the stack.
    pub fn push_layer(&mut self)
        requires
            old(self).wf(),
        ensures
            final(self).wf(),
            final(self).sr() == old(self).sr(),
            final(self).g() == old(self).g(),
            final(self).avg_gatings() == old(self).avg_gatings(),
            final(self).max_gatings() == old(self).max_gatings(),
            final(self).layer_inputs() == old(self).layer_inputs().push(
                Seq::<Seq<u64>>::empty(),
            ),
    {
        let layer = PipelineLayer::new(
            self.sample_rate,
            &self.g_weights,
            &self.avg_gatings,
            &self.max_gatings,
        );
        self.layers.push(layer);
        proof {
            assert(self.layer_inputs() =~= old(self).layer_inputs().push(
                Seq::<Seq<u64>>::empty(),
            ));
        }
    }

    /// Finalizes and removes the top layer, returning its results; `None`
    /// when the stack is empty. The layers below are untouched.
    pub fn pop_layer(&mut self) -> (r: Option<Output>)
        requires
            old(self).wf(),
        ensures
            final(self).wf(),
            final(self).sr() == old(self).sr(),
            final(self).g() == old(self).g(),
            final(self).avg_gatings() == old(self).avg_gatings(),
            final(self).max_gatings() == old(self).max_gatings(),
            old(self).layer_inputs().len() == 0 ==> r is None && final(self).layer_inputs()
                == old(self).layer_inputs(),
            old(self).layer_inputs().len() > 0 ==> (r matches Some(out) && output_matches(
                out,
                old(self).sr(),
                old(self).g(),
                old(self).avg_gatings(),
                old(self).max_gatings(),
                old(self).layer_inputs().last(),
            ) && final(self).layer_inputs() == old(self).layer_inputs().drop_last()),
    {
        let popped = self.layers.pop();
        proof {
            if old(self).layers@.len() > 0 {
                assert(self.layer_inputs() =~= old(self).layer_inputs().drop_last());
            } else {
                assert(self.layer_inputs() =~= old(self).layer_inputs());
            }
        }
        match popped {
            Some(layer) => Some(layer.calculate()),
            None => None,
        }
    }

    /// Broadcasts one frame to every layer of the stack.
    pub fn push(&mut self, input: &Frame)
        requires
            old(self).wf(),
            input.wf(),
            old(self).can_push(),
        ensures
            final(self).wf(),
            final(self).sr() == old(self).sr(),
            final(self).g() == old(self).g(),
            final(self).avg_gatings() == old(self).avg_gatings(),
            final(self).max_gatings() == old(self).max_gatings(),
            final(self).layer_inputs().len() == old(self).layer_inputs().len(),
            forall|i: int|
                0 <= i < old(self).layer_inputs().len() ==> #[trigger] final(self).layer_inputs()[i] == old(self).layer_inputs()[i].push(input@),
    {
        let ghost sr0 = self.sample_rate;
        let ghost gw0 = self.g_weights;
        let ghost ag0 = self.avg_gatings@;
        let ghost mg0 = self.max_gatings@;
        let ghost lay0 = self.layers@;
        proof {
            assert forall|j: int| 0 <= j < lay0.len() implies (#[trigger] lay0[j]).inputs().len()
                < u64::MAX by {
                assert(old(self).layer_inputs()[j] == lay0[j].inputs());
            }
        }
        let mut i: usize = 0;
        while i < self.layers.len()
            invariant
                input.wf(),
                self.sample_rate == sr0,
                self.g_weights == gw0,
                self.avg_gatings@ == ag0,
                self.max_gatings@ == mg0,
                self.layers@.len() == lay0.len(),
                i <= lay0.len(),
                forall|j: int| i <= j < lay0.len() ==> #[trigger] self.layers@[j] == lay0[j],
                forall|j: int|
                    0 <= j < lay0.len() ==> {
                        let l = #[trigger] lay0[j];
                        &&& l.wf()
                        &&& l.sr() == sr0
                        &&& l.g() == gw0@
                        &&& l.avg_gatings() == ag0
                        &&& l.max_gatings() == mg0
                        &&& l.inputs().len() < u64::MAX
                    },
                forall|j: int|
                    0 <= j < i ==> {
                        let l = #[trigger] self.layers@[j];
                        &&& l.wf()
                        &&& l.sr() == sr0
                        &&& l.g() == gw0@
                        &&& l.avg_gatings() == ag0
                        &&& l.max_gatings() == mg0
                        &&& l.inputs() == lay0[j].inputs().push(input@)
                    },
            decreases lay0.len() - i,
        {
            let mut layer = self.layers.remove(i);
            layer.push(input);
            self.layers.insert(i, layer);
            i = i + 1;
        }
    }

    /// Feeds a whole sequence of frames, in order, to every layer.
    pub fn feed(&mut self, frames: &Vec<Frame>)
        requires
            old(self).wf(),
            forall|j: int| 0 <= j < frames@.len() ==> (#[trigger] frames@[j]).wf(),
            forall|i: int|
                0 <= i < old(self).layer_inputs().len() ==> (#[trigger] old(self).layer_inputs()[i]).len() + frames@.len() <= u64::MAX,
        ensures
            final(self).wf(),
            final(self).sr() == old(self).sr(),
            final(self).g() == old(self).g(),
            final(self).avg_gatings() == old(self).avg_gatings(),
            final(self).max_gatings() == old(self).max_gatings(),
            final(self).layer_inputs().len() == old(self).layer_inputs().len(),
            forall|i: int|
                0 <= i < old(self).layer_inputs().len() ==> #[trigger] final(self).layer_inputs()[i] == old(self).layer_inputs()[i] + frames@.map(
                    |j: int, f: Frame| f@,
                ),
    {
        let ghost views = frames@.map(|j: int, f: Frame| f@);
        let mut k: usize = 0;
        while k < frames.len()
            invariant
                self.wf(),
                k <= frames@.len(),
                views == frames@.map(|j: int, f: Frame| f@),
                forall|j: int| 0 <= j < frames@.len() ==> (#[trigger] frames@[j]).wf(),
                self.sr() == old(self).sr(),
                self.g() == old(self).g(),
                self.avg_gatings() == old(self).avg_gatings(),
                self.max_gatings() == old(self).max_gatings(),
                self.layer_inputs().len() == old(self).layer_inputs().len(),
                forall|i: int|
                    0 <= i < old(self).layer_inputs().len() ==> (#[trigger] old(self).layer_inputs()[i]).len() + frames@.len() <= u64::MAX,
                forall|i: int|
                    0 <= i < old(self).layer_inputs().len() ==> #[trigger] self.layer_inputs()[i]
                        == old(self).layer_inputs()[i] + views.take(k as int),
            decreases frames@.len() - k,
        {
            proof {
                assert forall|i: int| 0 <= i < self.layer_inputs().len() implies (
                #[trigger] self.layer_inputs()[i]).len() < u64::MAX by {
                    assert(self.layer_inputs()[i] == old(self).layer_inputs()[i] + views.take(
                        k as int,
                    ));
                }
            }
            self.push(&frames[k]);
            proof {
                assert forall|i: int| 0 <= i < old(self).layer_inputs().len() implies #[trigger] self.layer_inputs()[i] == old(self).layer_inputs()[i] + views.take(k + 1) by {
                    assert(views.take(k + 1) =~= views.take(k as int).push(frames@[k as int]@));
                    assert((old(self).layer_inputs()[i] + views.take(k as int)).push(
                        frames@[k as int]@,
                    ) =~= old(self).layer_inputs()[i] + views.take(k + 1));
                }
            }
            k = k + 1;
        }
        proof {
            assert(views.take(frames@.len() as int) =~= views);
        }
    }

    /// Returns every layer to the state of a freshly built one; the stack
    /// itself and the configuration stay.
    pub fn reset(&mut self)
        requires
            old(self).wf(),
        ensures
            final(self).wf(),
            final(self).sr() == old(self).sr(),
            final(self).g() == old(self).g(),
            final(self).avg_gatings() == old(self).avg_gatings(),
            final(self).max_gatings() == old(self).max_gatings(),
            final(self).layer_inputs().len() == old(self).layer_inputs().len(),
            forall|i: int|
                0 <= i < final(self).layer_inputs().len() ==> (#[trigger] final(self).layer_inputs()[i]).len() == 0,
    {
        let ghost sr0 = self.sample_rate;
        let ghost gw0 = self.g_weights;
        let ghost ag0 = self.avg_gatings@;
        let ghost mg0 = self.max_gatings@;
        let ghost lay0 = self.layers@;
        let mut i: usize = 0;
        while i < self.layers.len()
            invariant
                self.sample_rate == sr0,
                self.g_weights == gw0,
                self.avg_gatings@ == ag0,
                self.max_gatings@ == mg0,
                self.layers@.len() == lay0.len(),
                i <= lay0.len(),
                forall|j: int| i <= j < lay0.len() ==> #[trigger] self.layers@[j] == lay0[j],
                forall|j: int|
                    0 <= j < lay0.len() ==> {
                        let l = #[trigger] lay0[j];
                        &&& l.wf()
                        &&& l.sr() == sr0
                        &&& l.g() == gw0@
                        &&& l.avg_gatings() == ag0
                        &&& l.max_gatings() == mg0
                    },
                forall|j: int|
                    0 <= j < i ==> {
                        let l = #[trigger] self.layers@[j];
                        &&& l.wf()
                        &&& l.sr() == sr0
                        &&& l.g() == gw0@
                        &&& l.avg_gatings() == ag0
                        &&& l.max_gatings() == mg0
                        &&& l.inputs() == Seq::<Seq<u64>>::empty()
                    },
            decreases lay0.len() - i,
        {
            let mut layer = self.layers.remove(i);
            layer.reset();
            self.layers.insert(i, layer);
            i = i + 1;
        }
    }

    /// Whether the pipeline measures nothing at all.
    pub fn is_noop(&self) -> (r: bool)
        ensures
            r == (self.avg_gatings().len() == 0 && self.max_gatings().len() == 0),
    {
        self.avg_gatings.len() == 0 && self.max_gatings.len() == 0
    }

    /// Finalizes every remaining layer, top of the stack first.
    pub fn calculate(self) -> (r: Vec<Output>)
        requires
            self.wf(),
        ensures
            r@.len() == self.layer_inputs().len(),
            forall|i: int|
                0 <= i < r@.len() ==> output_matches(
                    #[trigger] r@[i],
                    self.sr(),
                    self.g(),
                    self.avg_gatings(),
                    self.max_gatings(),
                    self.layer_inputs()[self.layer_inputs().len() - 1 - i],
                ),
    {
        let ghost sr = self.sr();
        let ghost g = self.g();
        let ghost avgs = self.avg_gatings();
        let ghost maxs = self.max_gatings();
        let ghost lins = self.layer_inputs();
        let Pipeline { sample_rate, g_weights, avg_gatings, max_gatings, layers } = self;
        let mut layers = layers;
        let mut outs: Vec<Output> = Vec::new();
        while layers.len() > 0
            invariant
                outs@.len() + layers@.len() == lins.len(),
                forall|j: int| 0 <= j < layers@.len() ==> #[trigger] layers@[j].inputs() == lins[j],
                forall|j: int|
                    0 <= j < layers@.len() ==> {
                        let l = #[trigger] layers@[j];
                        &&& l.wf()
                        &&& l.sr() == sr
                        &&& l.g() == g
                        &&& l.avg_gatings() == avgs
                        &&& l.max_gatings() == maxs
                    },
                forall|i: int|
                    0 <= i < outs@.len() ==> output_matches(
                        #[trigger] outs@[i],
                        sr,
                        g,
                        avgs,
                        maxs,
                        lins[lins.len() - 1 - i],
                    ),
            decreases layers@.len(),
        {
            let layer = layers.pop().unwrap();
            outs.push(layer.calculate());
        }
        outs
    }
}


/// The first gating of a list that cannot be measured at the sample
/// rate, in registration order.
pub open spec fn first_unfit(gs: Seq<Gating>, sample_rate: u32) -> Option<Gating>
    decreases gs.len(),
{
    if gs.len() == 0 {
        Option::None
    } else if !gating_fits(gs.first(), sample_rate) {
        Option::Some(gs.first())
    } else {
        first_unfit(gs.drop_first(), sample_rate)
    }
}

/// A scan that found no unfit gating before position `i` pins down
/// `first_unfit`.
pub proof fn lemma_first_unfit(gs: Seq<Gating>, sample_rate: u32, i: int)
    requires
        0 <= i <= gs.len(),
        forall|j: int| 0 <= j < i ==> gating_fits(#[trigger] gs[j], sample_rate),
        i < gs.len() ==> !gating_fits(gs[i], sample_rate),
    ensures
        first_unfit(gs, sample_rate) == if i < gs.len() {
            Option::Some(gs[i])
        } else {
            Option::<Gating>::None
        },
    decreases gs.len(),
{
    if gs.len() > 0 {
        if i == 0 {
            if gs.len() > 0 && gating_fits(gs.first(), sample_rate) {
                lemma_first_unfit(gs.drop_first(), sample_rate, 0);
            }
        } else {
            assert(gating_fits(gs[0], sample_rate));
            lemma_first_unfit(gs.drop_first(), sample_rate, i - 1);
        }
    }
}

/// What the builder answers for a configuration: the error it reports,
/// or nothing when the configuration is accepted. The sample rate is
/// checked first, then the average gatings in registration order, then
/// the maximum gatings, then that anything at all was registered.
pub open spec fn build_error(
    sample_rate: u32,
    avgs: Seq<Gating>,
    maxs: Seq<Gating>,
) -> Option<Error> {
    if sample_rate == 0 {
        Option::Some(Error::InvalidSampleRate(sample_rate))
    } else if first_unfit(avgs, sample_rate) is Some {
        Option::Some(Error::InvalidGating(first_unfit(avgs, sample_rate)->Some_0))
    } else if first_unfit(maxs, sample_rate) is Some {
        Option::Some(Error::InvalidGating(first_unfit(maxs, sample_rate)->Some_0))
    } else if avgs.len() == 0 && maxs.len() == 0 {
        Option::Some(Error::NoMeasurements)
    } else {
        Option::<Error>::None
    }
}

/// Both directions of the bound check: a product of two machine words
/// stays representable exactly when the first factor is at most the
/// quotient of the largest word by the second.
proof fn lemma_mul_within_max(a: u64, b: u64)
    requires
        b >= 1,
    ensures
        (a <= u64::MAX as int / b as int) <==> (a * b <= u64::MAX),
{
    let q = u64::MAX as int / b as int;
    let r = u64::MAX as int % b as int;
    vstd::arithmetic::div_mod::lemma_fundamental_div_mod(u64::MAX as int, b as int);
    vstd::arithmetic::div_mod::lemma_mod_bound(u64::MAX as int, b as int);
    if a <= q {
        assert(a * b <= u64::MAX) by (nonlinear_arith)
            requires
                a <= q,
                b >= 1,
                u64::MAX as int == (b as int) * q + r,
                r >= 0,
        ;
    } else {
        assert(a * b > u64::MAX) by (nonlinear_arith)
            requires
                a >= q + 1,
                b >= 1,
                u64::MAX as int == (b as int) * q + r,
                r < b,
        ;
    }
}

/// Whether one gating can be measured at one (positive) sample rate.
fn gating_fits_check(gating: Gating, sample_rate: u32) -> (r: bool)
    requires
        sample_rate >= 1,
    ensures
        r == gating_fits(gating, sample_rate),
{
    if !gating.is_valid() {
        return false;
    }
    let sr64 = sample_rate as u64;
    proof {
        lemma_mul_within_max(gating.gate_len_ms, sr64);
        lemma_mul_within_max(gating.delta_len_ms, sr64);
    }
    if gating.gate_len_ms > u64::MAX / sr64 {
        return false;
    }
    if gating.delta_len_ms > u64::MAX / sr64 {
        return false;
    }
    let gate_frames = Util::ms_to_samples(gating.gate_len_ms, sample_rate);
    let delta_frames = Util::ms_to_samples(gating.delta_len_ms, sample_rate);
    1 <= gate_frames && gate_frames <= (usize::MAX as u64) && 1 <= delta_frames && delta_frames
        <= (usize::MAX as u64)
}

/// Collects a measurement configuration and builds an empty pipeline
/// from it, rejecting invalid configurations synchronously.
pub struct PipelineBuilder {
    sample_rate: u32,
    g_weights: Frame,
    avg_gatings: Vec<Gating>,
    max_gatings: Vec<Gating>,
}

/// A gating list extended by each new gating in turn, keeping the list
/// free of duplicates.
pub open spec fn insert_gatings(cur: Seq<Gating>, gs: Seq<Gating>) -> Seq<Gating>
    decreases gs.len(),
{
    if gs.len() == 0 {
        cur
    } else {
        let pre = insert_gatings(cur, gs.drop_last());
        if pre.contains(gs.last()) {
            pre
        } else {
            pre.push(gs.last())
        }
    }
}

impl PipelineBuilder {
    /// The sample rate of the pipelines this builder makes.
    pub closed spec fn sr(&self) -> u32 {
        self.sample_rate
    }

    /// The per-channel weights of the loudness formula.
    pub closed spec fn g(&self) -> Seq<u64> {
        self.g_weights@
    }

    /// The gatings registered for integrated measurements, in order,
    /// without duplicates.
    pub closed spec fn avg_gatings(&self) -> Seq<Gating> {
        self.avg_gatings@
    }

    /// The gatings registered for maximum measurements, in order,
    /// without duplicates.
    pub closed spec fn max_gatings(&self) -> Seq<Gating> {
        self.max_gatings@
    }

    pub closed spec fn wf(&self) -> bool {
        self.g_weights.wf()
    }

    pub fn new(sample_rate: u32, g_weights: Frame) -> (r: PipelineBuilder)
        requires
            g_weights.wf(),
        ensures
            r.wf(),
            r.sr() == sample_rate,
            r.g() == g_weights@,
            r.avg_gatings() == Seq::<Gating>::empty(),
            r.max_gatings() == Seq::<Gating>::empty(),
    {
        PipelineBuilder {
            sample_rate,
            g_weights,
            avg_gatings: Vec::new(),
            max_gatings: Vec::new(),
        }
    }

    /// Registers an integrated-loudness measurement; registering the
    /// same gating twice keeps one entry.
    pub fn average(&mut self, gating: Gating)
        requires
            old(self).wf(),
        ensures
            final(self).wf(),
            final(self).sr() == old(self).sr(),
            final(self).g() == old(self).g(),
            final(self).max_gatings() == old(self).max_gatings(),
            final(self).avg_gatings() == if old(self).avg_gatings().contains(gating) {
                old(self).avg_gatings()
            } else {
                old(self).avg_gatings().push(gating)
            },
    {
        if !contains_gating(&self.avg_gatings, gating) {
            self.avg_gatings.push(gating);
        }
    }

    /// Registers several integrated-loudness measurements, in order.
    pub fn averages(&mut self, gatings: &Vec<Gating>)
        requires
            old(self).wf(),
        ensures
            final(self).wf(),
            final(self).sr() == old(self).sr(),
            final(self).g() == old(self).g(),
            final(self).max_gatings() == old(self).max_gatings(),
            final(self).avg_gatings() == insert_gatings(old(self).avg_gatings(), gatings@),
    {
        let mut k: usize = 0;
        while k < gatings.len()
            invariant
                self.wf(),
                k <= gatings@.len(),
                self.sr() == old(self).sr(),
                self.g() == old(self).g(),
                self.max_gatings() == old(self).max_gatings(),
                self.avg_gatings() == insert_gatings(
                    old(self).avg_gatings(),
                    gatings@.take(k as int),
                ),
            decreases gatings@.len() - k,
        {
            proof {
                assert(gatings@.take(k + 1).drop_last() =~= gatings@.take(k as int));
            }
            self.average(gatings[k]);
            k = k + 1;
        }
        proof {
            assert(gatings@.take(gatings@.len() as int) =~= gatings@);
        }
    }

    /// Registers a maximum-over-windows measurement; registering the
    /// same gating twice keeps one entry.
    pub fn maximum(&mut self, gating: Gating)
        requires
            old(self).wf(),
        ensures
            final(self).wf(),
            final(self).sr() == old(self).sr(),
            final(self).g() == old(self).g(),
            final(self).avg_gatings() == old(self).avg_gatings(),
            final(self).max_gatings() == if old(self).max_gatings().contains(gating) {
                old(self).max_gatings()
            } else {
                old(self).max_gatings().push(gating)
            },
    {
        if !contains_gating(&self.max_gatings, gating) {
            self.max_gatings.push(gating);
        }
    }

    /// Registers several maximum-over-windows measurements, in order.
    pub fn maximums(&mut self, gatings: &Vec<Gating>)
        requires
            old(self).wf(),
        ensures
            final(self).wf(),
            final(self).sr() == old(self).sr(),
            final(self).g() == old(self).g(),
            final(self).avg_gatings() == old(self).avg_gatings(),
            final(self).max_gatings() == insert_gatings(old(self).max_gatings(), gatings@),
    {
        let mut k: usize = 0;
        while k < gatings.len()
            invariant
                self.wf(),
                k <= gatings@.len(),
                self.sr() == old(self).sr(),
                self.g() == old(self).g(),
                self.avg_gatings() == old(self).avg_gatings(),
                self.max_gatings() == insert_gatings(
                    old(self).max_gatings(),
                    gatings@.take(k as int),
                ),
            decreases gatings@.len() - k,
        {
            proof {
                assert(gatings@.take(k + 1).drop_last() =~= gatings@.take(k as int));
            }
            self.maximum(gatings[k]);
            k = k + 1;
        }
        proof {
            assert(gatings@.take(gatings@.len() as int) =~= gatings@);
        }
    }

    /// Builds an empty pipeline (zero layers) from the configuration, or
    /// reports exactly why the configuration is rejected: a zero sample
    /// rate, the first unusable gating in registration order, or an
    /// empty measurement set.
    pub fn build(&self) -> (r: Result<Pipeline, Error>)
        requires
            self.wf(),
        ensures
            r is Err <==> build_error(self.sr(), self.avg_gatings(), self.max_gatings()) is Some,
            r matches Err(e) ==> Option::Some(e) == build_error(
                self.sr(),
                self.avg_gatings(),
                self.max_gatings(),
            ),
            r matches Ok(p) ==> {
                &&& p.wf()
                &&& p.sr() == self.sr()
                &&& p.g() == self.g()
                &&& p.avg_gatings() == self.avg_gatings()
                &&& p.max_gatings() == self.max_gatings()
                &&& p.layer_inputs() == Seq::<Seq<Seq<u64>>>::empty()
            },
    {
        if self.sample_rate == 0 {
            return Err(Error::InvalidSampleRate(self.sample_rate));
        }
        let mut i: usize = 0;
        while i < self.avg_gatings.len()
            invariant
                self.sample_rate >= 1,
                i <= self.avg_gatings@.len(),
                forall|j: int|
                    0 <= j < i ==> gating_fits(#[trigger] self.avg_gatings@[j], self.sample_rate),
            decreases self.avg_gatings@.len() - i,
        {
            if !gating_fits_check(self.avg_gatings[i], self.sample_rate) {
                proof {
                    lemma_first_unfit(self.avg_gatings@, self.sample_rate, i as int);
                }
                return Err(Error::InvalidGating(self.avg_gatings[i]));
            }
            i = i + 1;
        }
        proof {
            lemma_first_unfit(self.avg_gatings@, self.sample_rate, self.avg_gatings@.len() as int);
        }
        let mut i: usize = 0;
        while i < self.max_gatings.len()
            invariant
                self.sample_rate >= 1,
                first_unfit(self.avg_gatings@, self.sample_rate) is None,
                i <= self.max_gatings@.len(),
                forall|j: int|
                    0 <= j < i ==> gating_fits(#[trigger] self.max_gatings@[j], self.sample_rate),
            decreases self.max_gatings@.len() - i,
        {
            if !gating_fits_check(self.max_gatings[i], self.sample_rate) {
                proof {
                    lemma_first_unfit(self.max_gatings@, self.sample_rate, i as int);
                }
                return Err(Error::InvalidGating(self.max_gatings[i]));
            }
            i = i + 1;
        }
        proof {
            lemma_first_unfit(self.max_gatings@, self.sample_rate, self.max_gatings@.len() as int);
        }
        if self.avg_gatings.len() == 0 && self.max_gatings.len() == 0 {
            return Err(Error::NoMeasurements);
        }
        let mut avg_copy: Vec<Gating> = Vec::new();
        let mut i: usize = 0;
        while i < self.avg_gatings.len()
            invariant
                i <= self.avg_gatings@.len(),
                avg_copy@ == self.avg_gatings@.take(i as int),
            decreases self.avg_gatings@.len() - i,
        {
            avg_copy.push(self.avg_gatings[i]);
            proof {
                assert(avg_copy@ =~= self.avg_gatings@.take(i + 1));
            }
            i = i + 1;
        }
        let mut max_copy: Vec<Gating> = Vec::new();
        let mut i: usize = 0;
        while i < self.max_gatings.len()
            invariant
                i <= self.max_gatings@.len(),
                max_copy@ == self.max_gatings@.take(i as int),
            decreases self.max_gatings@.len() - i,
        {
            max_copy.push(self.max_gatings[i]);
            proof {
                assert(max_copy@ =~= self.max_gatings@.take(i + 1));
            }
            i = i + 1;
        }
        proof {
            assert(avg_copy@ =~= self.avg_gatings@);
            assert(max_copy@ =~= self.max_gatings@);
        }
        let p = Pipeline {
            sample_rate: self.sample_rate,
            g_weights: self.g_weights.duplicate(),
            avg_gatings: avg_copy,
            max_gatings: max_copy,
            layers: Vec::new(),
        };
        proof {
            assert(p.layer_inputs() =~= Seq::<Seq<Seq<u64>>>::empty());
        }
        Ok(p)
    }
}

/// Whether a gating list already holds a gating.
fn contains_gating(gs: &Vec<Gating>, gating: Gating) -> (r: bool)
    ensures
        r == gs@.contains(gating),
{
    let mut k: usize = 0;
    while k < gs.len()
        invariant
            k <= gs@.len(),
            forall|j: int| 0 <= j < k ==> gs@[j] != gating,
        decreases gs@.len() - k,
    {
        if gs[k] == gating {
            return true;
        }
        k = k + 1;
    }
    false
}

} // verus!
