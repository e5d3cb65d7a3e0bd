//! The two-stage K-weighting filter of ITU-R BS.1770-4: a shelving boost
//! stage followed by an RLB high-pass stage, each a biquad in transposed
//! direct form II with per-channel state.

use vstd::prelude::*;

use crate::arith::{
    sum_of, prod_of, quot_of, real_of, tan_of, pow_of, diff_of, ONE_BITS, TWO_BITS, TEN_BITS,
    TWENTY_BITS, fadd, fsub, fmul, fdiv, ftan, fpow, from_int,
};
use crate::frame::{Frame, silent_frame, MAX_CHANNELS};
use crate::util::{Util, flush_of};

verus! {

/// Bit pattern of the circle constant 3.141592653589793.
pub const PI_BITS: u64 = 0x4009_21FB_5444_2D18;
/// Bit pattern of -2.0.
pub const NEG_TWO_BITS: u64 = 0xC000_0000_0000_0000;
/// Bit pattern of 1681.974450955533, the shelving stage's centre frequency.
pub const F0_SHELVING_BITS: u64 = 0x409A_47E5_D678_A648;
/// Bit pattern of 0.7071752369554196, the shelving stage's quality factor.
pub const Q_SHELVING_BITS: u64 = 0x3FE6_A12D_F668_776C;
/// Bit pattern of 38.13547087602444, the high-pass stage's centre frequency.
pub const F0_HIGHPASS_BITS: u64 = 0x4043_1157_1C13_0AF0;
/// Bit pattern of 0.5003270373238773, the high-pass stage's quality factor.
pub const Q_HIGHPASS_BITS: u64 = 0x3FE0_02AD_D8D3_8A3C;
/// Bit pattern of 3.999843853973347, the shelving gain in decibels.
pub const HEIGHT_BITS: u64 = 0x400F_FFAE_226F_6083;
/// Bit pattern of 0.4996667741545416, the exponent of the band-pass gain.
pub const VB_EXP_BITS: u64 = 0x3FDF_FA8A_5979_0F8D;

/// The two stages of the K-weighting chain.
#[derive(Copy, Clone, Debug)]
pub enum Kind {
    Shelving,
    HighPass,
}

/// Coefficients for a biquad digital filter at a particular sample rate.
/// The `a0` coefficient is always normalized to 1.0 and thus not included.
#[derive(Copy, Clone, Debug, PartialEq, Eq, Structural)]
pub struct Coefficients {
    pub b0: u64,
    pub b1: u64,
    pub b2: u64,
    pub a1: u64,
    pub a2: u64,
}

pub open spec fn kind_f0(kind: Kind) -> u64 {
    match kind {
        Kind::Shelving => F0_SHELVING_BITS,
        Kind::HighPass => F0_HIGHPASS_BITS,
    }
}

pub open spec fn kind_q(kind: Kind) -> u64 {
    match kind {
        Kind::Shelving => Q_SHELVING_BITS,
        Kind::HighPass => Q_HIGHPASS_BITS,
    }
}

/// The warped frequency parameter `k = tan(pi * f0 / sample_rate)`.
pub open spec fn k_param(kind: Kind, sample_rate: u32) -> u64 {
    tan_of(quot_of(prod_of(PI_BITS, kind_f0(kind)), real_of(sample_rate as u64)))
}

/// The coefficients of one stage at one sample rate, computed exactly as
/// the analytic derivation writes them, with a denormal flush applied to
/// every coefficient at the end.
pub open spec fn coeffs_spec(kind: Kind, sample_rate: u32) -> Coefficients {
    let k = k_param(kind, sample_rate);
    let kbq = quot_of(k, kind_q(kind));
    let ksq = prod_of(k, k);
    let a0 = sum_of(sum_of(ONE_BITS, kbq), ksq);
    let a1 = flush_of(quot_of(prod_of(TWO_BITS, diff_of(ksq, ONE_BITS)), a0));
    let a2 = flush_of(quot_of(sum_of(diff_of(ONE_BITS, kbq), ksq), a0));
    match kind {
        Kind::Shelving => {
            let vh = pow_of(TEN_BITS, quot_of(HEIGHT_BITS, TWENTY_BITS));
            let vb = pow_of(vh, VB_EXP_BITS);
            let b0 = flush_of(quot_of(sum_of(sum_of(vh, prod_of(vb, kbq)), ksq), a0));
            let b1 = flush_of(quot_of(prod_of(TWO_BITS, diff_of(ksq, vh)), a0));
            let b2 = flush_of(quot_of(sum_of(diff_of(vh, prod_of(vb, kbq)), ksq), a0));
            Coefficients { b0, b1, b2, a1, a2 }
        },
        Kind::HighPass => Coefficients {
            b0: ONE_BITS,
            b1: NEG_TWO_BITS,
            b2: ONE_BITS,
            a1,
            a2,
        },
    }
}

impl Coefficients {
    /// Derives the coefficients of one stage analytically at the given
    /// sample rate.
    pub fn new(kind: Kind, sample_rate: u32) -> (r: Coefficients)
        ensures
            r == coeffs_spec(kind, sample_rate),
    {
        let f0 = match kind {
            Kind::Shelving => F0_SHELVING_BITS,
            Kind::HighPass => F0_HIGHPASS_BITS,
        };
        let q = match kind {
            Kind::Shelving => Q_SHELVING_BITS,
            Kind::HighPass => Q_HIGHPASS_BITS,
        };
        let k = ftan(fdiv(fmul(PI_BITS, f0), from_int(sample_rate as u64)));
        let kbq = fdiv(k, q);
        let ksq = fmul(k, k);
        let a0 = fadd(fadd(ONE_BITS, kbq), ksq);
        let a1 = Util::den(fdiv(fmul(TWO_BITS, fsub(ksq, ONE_BITS)), a0));
        let a2 = Util::den(fdiv(fadd(fsub(ONE_BITS, kbq), ksq), a0));
        match kind {
            Kind::Shelving => {
                let vh = fpow(TEN_BITS, fdiv(HEIGHT_BITS, TWENTY_BITS));
                let vb = fpow(vh, VB_EXP_BITS);
                let b0 = Util::den(fdiv(fadd(fadd(vh, fmul(vb, kbq)), ksq), a0));
                let b1 = Util::den(fdiv(fmul(TWO_BITS, fsub(ksq, vh)), a0));
                let b2 = Util::den(fdiv(fadd(fsub(vh, fmul(vb, kbq)), ksq), a0));
                Coefficients { b0, b1, b2, a1, a2 }
            },
            Kind::HighPass => Coefficients {
                b0: ONE_BITS,
                b1: NEG_TWO_BITS,
                b2: ONE_BITS,
                a1,
                a2,
            },
        }
    }
}

/// The output of one biquad step: `y = s1 + b0 * x`.
pub open spec fn df2_out(c: Coefficients, s1: u64, x: u64) -> u64 {
    sum_of(s1, prod_of(c.b0, x))
}

/// The first state accumulator after one step: `s1' = s2 + b1*x - a1*y`.
pub open spec fn df2_s1(c: Coefficients, s2: u64, x: u64, y: u64) -> u64 {
    diff_of(sum_of(s2, prod_of(c.b1, x)), prod_of(c.a1, y))
}

/// The second state accumulator after one step: `s2' = b2*x - a2*y`.
pub open spec fn df2_s2(c: Coefficients, x: u64, y: u64) -> u64 {
    diff_of(prod_of(c.b2, x), prod_of(c.a2, y))
}

/// The frame a biquad stage outputs for input `x` with state `s1`.
pub open spec fn filter_out(c: Coefficients, s1: Seq<u64>, x: Seq<u64>) -> Seq<u64> {
    Seq::new(x.len(), |i: int| df2_out(c, s1[i], x[i]))
}

/// The stage's `s1` state after consuming `x`.
pub open spec fn filter_next_s1(c: Coefficients, s1: Seq<u64>, s2: Seq<u64>, x: Seq<u64>) -> Seq<
    u64,
> {
    Seq::new(x.len(), |i: int| df2_s1(c, s2[i], x[i], df2_out(c, s1[i], x[i])))
}

/// The stage's `s2` state after consuming `x`.
pub open spec fn filter_next_s2(c: Coefficients, s1: Seq<u64>, s2: Seq<u64>, x: Seq<u64>) -> Seq<
    u64,
> {
    Seq::new(x.len(), |i: int| df2_s2(c, x[i], df2_out(c, s1[i], x[i])))
}

/// The `(s1, s2)` state of one stage after consuming a whole input
/// sequence, starting from the zero state.
pub open spec fn stage_states(c: Coefficients, ins: Seq<Seq<u64>>) -> (Seq<u64>, Seq<u64>)
    decreases ins.len(),
{
    if ins.len() == 0 {
        (silent_frame(), silent_frame())
    } else {
        let prev = stage_states(c, ins.drop_last());
        (
            filter_next_s1(c, prev.0, prev.1, ins.last()),
            filter_next_s2(c, prev.0, prev.1, ins.last()),
        )
    }
}

/// The frames one stage outputs for a whole input sequence.
pub open spec fn stage_outs(c: Coefficients, ins: Seq<Seq<u64>>) -> Seq<Seq<u64>> {
    Seq::new(ins.len(), |i: int| filter_out(c, stage_states(c, ins.take(i)).0, ins[i]))
}

/// The frames the two-stage chain outputs for a whole input sequence: the
/// shelving stage's outputs fed through the high-pass stage.
pub open spec fn chain_outs(ca: Coefficients, cb: Coefficients, ins: Seq<Seq<u64>>) -> Seq<
    Seq<u64>,
> {
    stage_outs(cb, stage_outs(ca, ins))
}

/// Appending one input appends one output and advances the stage state by
/// one step.
pub proof fn lemma_stage_push(c: Coefficients, ins: Seq<Seq<u64>>, x: Seq<u64>)
    ensures
        stage_states(c, ins.push(x)) == (
            filter_next_s1(c, stage_states(c, ins).0, stage_states(c, ins).1, x),
            filter_next_s2(c, stage_states(c, ins).0, stage_states(c, ins).1, x),
        ),
        stage_outs(c, ins.push(x)) == stage_outs(c, ins).push(
            filter_out(c, stage_states(c, ins).0, x),
        ),
{
    assert(ins.push(x).drop_last() =~= ins);
    assert(ins.push(x).take(ins.len() as int) =~= ins);
    assert forall|i: int| 0 <= i < ins.len() implies stage_outs(c, ins.push(x))[i] == stage_outs(
        c,
        ins,
    )[i] by {
        assert(ins.push(x).take(i) =~= ins.take(i));
    }
    assert(stage_outs(c, ins.push(x)) =~= stage_outs(c, ins).push(
        filter_out(c, stage_states(c, ins).0, x),
    ));
}

/// One biquad stage with its coefficients and per-channel state.
pub struct Filter {
    pub coeff: Coefficients,
    pub s1: Frame,
    pub s2: Frame,
}

impl Filter {
    pub open spec fn wf(&self) -> bool {
        &&& self.s1.wf()
        &&& self.s2.wf()
    }

    pub fn new(kind: Kind, sample_rate: u32) -> (r: Filter)
        ensures
            r.wf(),
            r.coeff == coeffs_spec(kind, sample_rate),
            r.s1@ == silent_frame(),
            r.s2@ == silent_frame(),
    {
        Filter { coeff: Coefficients::new(kind, sample_rate), s1: Frame::silent(), s2: Frame::silent() }
    }

    /// Applies one step of the transposed direct form II recurrence to
    /// every channel.
    pub fn apply(&mut self, input: &Frame) -> (r: Frame)
        requires
            old(self).wf(),
            input.wf(),
        ensures
            final(self).wf(),
            final(self).coeff == old(self).coeff,
            r.wf(),
            r@ == filter_out(old(self).coeff, old(self).s1@, input@),
            final(self).s1@ == filter_next_s1(old(self).coeff, old(self).s1@, old(self).s2@, input@),
            final(self).s2@ == filter_next_s2(old(self).coeff, old(self).s1@, old(self).s2@, input@),
    {
        let mut out: Vec<u64> = Vec::new();
        let mut ns1: Vec<u64> = Vec::new();
        let mut ns2: Vec<u64> = Vec::new();
        let mut i: usize = 0;
        while i < MAX_CHANNELS
            invariant
                self.wf(),
                input.wf(),
                i <= MAX_CHANNELS,
                out@.len() == i,
                ns1@.len() == i,
                ns2@.len() == i,
                forall|j: int|
                    0 <= j < i ==> out@[j] == df2_out(self.coeff, self.s1@[j], input@[j]),
                forall|j: int|
                    0 <= j < i ==> ns1@[j] == df2_s1(
                        self.coeff,
                        self.s2@[j],
                        input@[j],
                        df2_out(self.coeff, self.s1@[j], input@[j]),
                    ),
                forall|j: int|
                    0 <= j < i ==> ns2@[j] == df2_s2(
                        self.coeff,
                        input@[j],
                        df2_out(self.coeff, self.s1@[j], input@[j]),
                    ),
            decreases MAX_CHANNELS - i,
        {
            let x = input.channel(i);
            let y = fadd(self.s1.channel(i), fmul(self.coeff.b0, x));
            ns1.push(fsub(fadd(self.s2.channel(i), fmul(self.coeff.b1, x)), fmul(self.coeff.a1, y)));
            ns2.push(fsub(fmul(self.coeff.b2, x), fmul(self.coeff.a2, y)));
            out.push(y);
            i = i + 1;
        }
        let r = Frame::new(out);
        let new_s1 = Frame::new(ns1);
        let new_s2 = Frame::new(ns2);
        proof {
            assert(r@ =~= filter_out(self.coeff, self.s1@, input@));
            assert(new_s1@ =~= filter_next_s1(self.coeff, self.s1@, self.s2@, input@));
            assert(new_s2@ =~= filter_next_s2(self.coeff, self.s1@, self.s2@, input@));
        }
        self.s1 = new_s1;
        self.s2 = new_s2;
        r
    }

    /// Restores the zero state, leaving the coefficients in place.
    pub fn reset(&mut self)
        ensures
            final(self).wf(),
            final(self).coeff == old(self).coeff,
            final(self).s1@ == silent_frame(),
            final(self).s2@ == silent_frame(),
    {
        self.s1 = Frame::silent();
        self.s2 = Frame::silent();
    }
}

/// The two-stage K-weighting chain: the shelving boost stage feeding the
/// RLB high-pass stage.
pub struct FilterChain {
    pub pass_a: Filter,
    pub pass_b: Filter,
}

impl FilterChain {
    /// The chain's filters carry the coefficients of their kind at a
    /// single sample rate, and its ghost input history matches its state.
    pub open spec fn wf(&self) -> bool {
        &&& self.pass_a.wf()
        &&& self.pass_b.wf()
    }

    pub fn new(sample_rate: u32) -> (r: FilterChain)
        ensures
            r.wf(),
            r.pass_a.coeff == coeffs_spec(Kind::Shelving, sample_rate),
            r.pass_b.coeff == coeffs_spec(Kind::HighPass, sample_rate),
            r.pass_a.s1@ == silent_frame(),
            r.pass_a.s2@ == silent_frame(),
            r.pass_b.s1@ == silent_frame(),
            r.pass_b.s2@ == silent_frame(),
    {
        FilterChain { pass_a: Filter::new(Kind::Shelving, sample_rate), pass_b: Filter::new(Kind::HighPass, sample_rate) }
    }

    /// One frame through both stages.
    pub fn apply(&mut self, input: &Frame) -> (r: Frame)
        requires
            old(self).wf(),
            input.wf(),
        ensures
            final(self).wf(),
            final(self).pass_a.coeff == old(self).pass_a.coeff,
            final(self).pass_b.coeff == old(self).pass_b.coeff,
            r.wf(),
            ({
                let mid = filter_out(old(self).pass_a.coeff, old(self).pass_a.s1@, input@);
                &&& r@ == filter_out(old(self).pass_b.coeff, old(self).pass_b.s1@, mid)
                &&& final(self).pass_a.s1@ == filter_next_s1(
                    old(self).pass_a.coeff,
                    old(self).pass_a.s1@,
                    old(self).pass_a.s2@,
                    input@,
                )
                &&& final(self).pass_a.s2@ == filter_next_s2(
                    old(self).pass_a.coeff,
                    old(self).pass_a.s1@,
                    old(self).pass_a.s2@,
                    input@,
                )
                &&& final(self).pass_b.s1@ == filter_next_s1(
                    old(self).pass_b.coeff,
                    old(self).pass_b.s1@,
                    old(self).pass_b.s2@,
                    mid,
                )
                &&& final(self).pass_b.s2@ == filter_next_s2(
                    old(self).pass_b.coeff,
                    old(self).pass_b.s1@,
                    old(self).pass_b.s2@,
                    mid,
                )
            }),
    {
        let mid = self.pass_a.apply(input);
        self.pass_b.apply(&mid)
    }
}


/// The frames the K-weighting chain outputs for a whole input stream at
/// one sample rate.
pub open spec fn kw_outs(sample_rate: u32, ins: Seq<Seq<u64>>) -> Seq<Seq<u64>> {
    chain_outs(
        coeffs_spec(Kind::Shelving, sample_rate),
        coeffs_spec(Kind::HighPass, sample_rate),
        ins,
    )
}

/// The K-weighting filter: the two-stage chain together with the ghost
/// history of the raw frames it has consumed, so that its state is pinned
/// to the spec recurrence over that history.
pub struct KWeightFilter {
    chain: FilterChain,
    sample_rate: u32,
    inputs: Ghost<Seq<Seq<u64>>>,
}

impl KWeightFilter {
    /// The sample rate the coefficients were derived at.
    pub closed spec fn sr(&self) -> u32 {
        self.sample_rate
    }

    /// The raw frames consumed so far.
    pub closed spec fn inputs(&self) -> Seq<Seq<u64>> {
        self.inputs@
    }

    /// The chain carries the coefficients of its sample rate and its state
    /// equals the spec recurrence over the consumed frames.
    pub closed spec fn wf(&self) -> bool {
        let ca = coeffs_spec(Kind::Shelving, self.sample_rate);
        let cb = coeffs_spec(Kind::HighPass, self.sample_rate);
        &&& self.chain.wf()
        &&& self.chain.pass_a.coeff == ca
        &&& self.chain.pass_b.coeff == cb
        &&& (self.chain.pass_a.s1@, self.chain.pass_a.s2@) == stage_states(ca, self.inputs@)
        &&& (self.chain.pass_b.s1@, self.chain.pass_b.s2@) == stage_states(
            cb,
            stage_outs(ca, self.inputs@),
        )
        &&& forall|j: int| 0 <= j < self.inputs@.len() ==> (#[trigger] self.inputs@[j]).len()
            == MAX_CHANNELS
    }

    pub fn new(sample_rate: u32) -> (r: KWeightFilter)
        ensures
            r.wf(),
            r.sr() == sample_rate,
            r.inputs() == Seq::<Seq<u64>>::empty(),
    {
        KWeightFilter {
            chain: FilterChain::new(sample_rate),
            sample_rate,
            inputs: Ghost(Seq::empty()),
        }
    }

    /// One frame through both stages: the output is the next frame of the
    /// spec recurrence over the whole consumed stream.
    pub fn process(&mut self, input: &Frame) -> (r: Frame)
        requires
            old(self).wf(),
            input.wf(),
        ensures
            final(self).wf(),
            final(self).sr() == old(self).sr(),
            final(self).inputs() == old(self).inputs().push(input@),
            r.wf(),
            kw_outs(old(self).sr(), final(self).inputs()) == kw_outs(
                old(self).sr(),
                old(self).inputs(),
            ).push(r@),
            r@ == kw_outs(old(self).sr(), final(self).inputs()).last(),
    {
        let ghost ca = coeffs_spec(Kind::Shelving, self.sample_rate);
        let ghost cb = coeffs_spec(Kind::HighPass, self.sample_rate);
        let ghost ins0 = self.inputs@;
        let ghost mids0 = stage_outs(ca, ins0);
        let mid = self.chain.pass_a.apply(input);
        let r = self.chain.pass_b.apply(&mid);
        proof {
            self.inputs@ = ins0.push(input@);
            lemma_stage_push(ca, ins0, input@);
            lemma_stage_push(cb, mids0, mid@);
        }
        r
    }

    /// Restores the zero filter state: the filter is as freshly built.
    pub fn reset(&mut self)
        requires
            old(self).wf(),
        ensures
            final(self).wf(),
            final(self).sr() == old(self).sr(),
            final(self).inputs() == Seq::<Seq<u64>>::empty(),
    {
        self.chain.pass_a.reset();
        self.chain.pass_b.reset();
        proof {
            self.inputs@ = Seq::empty();
        }
    }
}

} // verus!
