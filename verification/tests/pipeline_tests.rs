use regulus::frame::Frame;
use regulus::filter::KWeightFilter;
use regulus::gating::{GatedPowers, Gating};
use regulus::loudness::Loudness;
use regulus::pipeline::{Error, Output, Pipeline, PipelineBuilder};

const G_WEIGHTS: [f64; 5] = [1.0, 1.0, 1.0, 1.41, 1.41];

fn frame(xs: [f64; 5]) -> Frame {
    Frame::new(vec![
        xs[0].to_bits(),
        xs[1].to_bits(),
        xs[2].to_bits(),
        xs[3].to_bits(),
        xs[4].to_bits(),
    ])
}

fn g_weights() -> Frame {
    frame(G_WEIGHTS)
}

/// One multichannel sine generator: each channel advances its phase by
/// `hz / sample_rate` per step, wrapped into [0, 1).
fn sine_frames(hzs: [f64; 5], sample_rate: u32, n: usize) -> Vec<Frame> {
    let mut phases = [0.0f64; 5];
    let mut out = Vec::with_capacity(n);
    for _ in 0..n {
        let mut xs = [0.0f64; 5];
        for ch in 0..5 {
            xs[ch] = if hzs[ch] == 0.0 {
                0.0
            } else {
                (2.0 * std::f64::consts::PI * phases[ch]).sin()
            };
            phases[ch] = (phases[ch] + hzs[ch] / sample_rate as f64) % 1.0;
        }
        out.push(frame(xs));
    }
    out
}

fn momentary_average_pipeline(sample_rate: u32) -> Pipeline {
    let mut builder = PipelineBuilder::new(sample_rate, g_weights());
    builder.average(Gating::momentary());
    builder.build().unwrap()
}

fn average_of(out: &Output, gating: Gating) -> Option<f64> {
    for (g, v) in out.averages.iter() {
        if *g == gating {
            return v.map(f64::from_bits);
        }
    }
    panic!("gating not reported");
}

#[test]
fn nominal_frequency_reading() {
    // As per the ITU BS.1770 spec:
    // If a 0 dB FS, 997 Hz sine wave is applied to the left, center, or
    // right channel input, the indicated loudness will equal -3.01 LKFS.
    const SAMPLE_RATE: u32 = 48000;

    let frames = sine_frames([997.0, 0.0, 0.0, 0.0, 0.0], SAMPLE_RATE, SAMPLE_RATE as usize * 2);

    let mut k_weighter = KWeightFilter::new(SAMPLE_RATE);
    let mut power_gater = GatedPowers::momentary(SAMPLE_RATE);
    let mut loudness = Loudness::new(g_weights());

    for f in frames.iter() {
        let filtered = k_weighter.process(f);
        if let Some(p) = power_gater.process(&filtered) {
            loudness.push(&p);
        }
    }

    let produced = f64::from_bits(loudness.calculate().unwrap());
    assert!(
        (produced - (-3.010251969611668)).abs() <= 1e-9,
        "{:?}",
        produced
    );
}

#[test]
fn silence_gives_no_result() {
    // Ten seconds of silence: every power window sits far below the
    // absolute threshold, so both gatings report no result.
    const SAMPLE_RATE: u32 = 48000;
    let mut builder = PipelineBuilder::new(SAMPLE_RATE, g_weights());
    builder.average(Gating::momentary());
    builder.average(Gating::shortterm());
    let mut pipeline = builder.build().unwrap();
    pipeline.push_layer();

    let silent = frame([0.0; 5]);
    for _ in 0..(SAMPLE_RATE as usize * 10) {
        pipeline.push(&silent);
    }

    let out = pipeline.pop_layer().unwrap();
    assert_eq!(None, average_of(&out, Gating::momentary()));
    assert_eq!(None, average_of(&out, Gating::shortterm()));
}

#[test]
fn exactly_one_gate_of_silence_gives_no_result() {
    // Exactly 400 ms of silent samples at 48 kHz: the window fills and
    // emits once, but the emission is below the absolute threshold.
    const SAMPLE_RATE: u32 = 48000;
    let mut pipeline = momentary_average_pipeline(SAMPLE_RATE);
    pipeline.push_layer();

    let silent = frame([0.0; 5]);
    for _ in 0..19200 {
        pipeline.push(&silent);
    }

    let out = pipeline.pop_layer().unwrap();
    assert_eq!(None, average_of(&out, Gating::momentary()));
}

#[test]
fn stream_shorter_than_gate_gives_no_result() {
    // 0.2 s of arbitrary input against a 400 ms gate: the windower never
    // emits and finalize reports no result.
    const SAMPLE_RATE: u32 = 48000;
    let mut pipeline = momentary_average_pipeline(SAMPLE_RATE);
    pipeline.push_layer();

    let frames = sine_frames([997.0, 499.0, 0.0, 250.0, 125.0], SAMPLE_RATE, 9600);
    pipeline.feed(&frames);

    let out = pipeline.pop_layer().unwrap();
    assert_eq!(None, average_of(&out, Gating::momentary()));
}

#[test]
fn square_wave_loudness_is_finite() {
    // A full-scale 1 kHz square wave on channel 0 for four seconds: the
    // integrated loudness must be finite and above the absolute
    // threshold.
    const SAMPLE_RATE: u32 = 48000;
    let mut pipeline = momentary_average_pipeline(SAMPLE_RATE);
    pipeline.push_layer();

    for i in 0..(SAMPLE_RATE as usize * 4) {
        // 1 kHz at 48 kHz: 24 samples high, 24 samples low per period.
        let x = if (i / 24) % 2 == 0 { 1.0 } else { -1.0 };
        pipeline.push(&frame([x, 0.0, 0.0, 0.0, 0.0]));
    }

    let out = pipeline.pop_layer().unwrap();
    let loudness = average_of(&out, Gating::momentary()).unwrap();
    assert!(loudness.is_finite());
    assert!(loudness > -70.0);
}

#[test]
fn identical_pipelines_give_identical_outputs() {
    // Two fresh pipelines of the same configuration, fed the same
    // frames, produce bit-identical outputs.
    const SAMPLE_RATE: u32 = 8000;
    let frames = sine_frames([440.0, 220.0, 110.0, 55.0, 27.5], SAMPLE_RATE, 8000);

    let mut first = momentary_average_pipeline(SAMPLE_RATE);
    first.push_layer();
    first.feed(&frames);
    let out_first = first.pop_layer().unwrap();

    let mut second = momentary_average_pipeline(SAMPLE_RATE);
    second.push_layer();
    second.feed(&frames);
    let out_second = second.pop_layer().unwrap();

    assert_eq!(out_first.averages, out_second.averages);
    assert_eq!(out_first.maximums, out_second.maximums);
}

#[test]
fn reset_replays_like_fresh() {
    // After a reset, replaying a stream gives exactly the output a fresh
    // pipeline gives on that stream.
    const SAMPLE_RATE: u32 = 8000;
    let noise = sine_frames([3001.0, 170.0, 89.0, 45.0, 23.0], SAMPLE_RATE, 9000);
    let replay = sine_frames([440.0, 0.0, 0.0, 0.0, 0.0], SAMPLE_RATE, 8000);

    let mut reused = momentary_average_pipeline(SAMPLE_RATE);
    reused.push_layer();
    reused.feed(&noise);
    reused.reset();
    reused.feed(&replay);
    let out_reused = reused.pop_layer().unwrap();

    let mut fresh = momentary_average_pipeline(SAMPLE_RATE);
    fresh.push_layer();
    fresh.feed(&replay);
    let out_fresh = fresh.pop_layer().unwrap();

    assert_eq!(out_fresh.averages, out_reused.averages);
    assert_eq!(out_fresh.maximums, out_reused.maximums);
}

#[test]
fn album_layer_sees_the_combined_stream() {
    // A root (album) layer stays while per-track layers come and go; the
    // album's result equals the result of one layer over the combined
    // frame stream, bit for bit.
    const SAMPLE_RATE: u32 = 8000;
    let track_a = sine_frames([440.0, 0.0, 0.0, 0.0, 0.0], SAMPLE_RATE, 8000);
    let track_b = sine_frames([660.0, 0.0, 0.0, 0.0, 0.0], SAMPLE_RATE, 8000);

    let mut pipeline = momentary_average_pipeline(SAMPLE_RATE);
    pipeline.push_layer();  // album
    pipeline.push_layer();  // track A
    pipeline.feed(&track_a);
    let out_a = pipeline.pop_layer().unwrap();
    pipeline.push_layer();  // track B
    pipeline.feed(&track_b);
    let out_b = pipeline.pop_layer().unwrap();
    let out_album = pipeline.pop_layer().unwrap();

    // The same tracks through fresh single-layer pipelines.
    let mut single_a = momentary_average_pipeline(SAMPLE_RATE);
    single_a.push_layer();
    single_a.feed(&track_a);
    assert_eq!(single_a.pop_layer().unwrap().averages, out_a.averages);

    let mut single_b = momentary_average_pipeline(SAMPLE_RATE);
    single_b.push_layer();
    single_b.feed(&track_b);
    assert_eq!(single_b.pop_layer().unwrap().averages, out_b.averages);

    let mut combined = momentary_average_pipeline(SAMPLE_RATE);
    combined.push_layer();
    combined.feed(&track_a);
    combined.feed(&track_b);
    assert_eq!(combined.pop_layer().unwrap().averages, out_album.averages);
}

#[test]
fn k_filter_rejects_dc() {
    // Ten seconds of constant DC: the RLB high-pass has zero DC gain, so
    // the output decays towards zero.
    const SAMPLE_RATE: u32 = 48000;
    let mut k_weighter = KWeightFilter::new(SAMPLE_RATE);
    let dc = frame([0.5, -0.25, 1.0, 0.125, -1.0]);
    let mut last = frame([0.0; 5]);
    for _ in 0..(SAMPLE_RATE as usize * 10) {
        last = k_weighter.process(&dc);
    }
    for ch in 0..5 {
        assert!(f64::from_bits(last.channel(ch)).abs() < 1e-6);
    }
}

#[test]
fn builder_rejects_bad_configurations() {
    // A zero sample rate.
    let mut builder = PipelineBuilder::new(0, g_weights());
    builder.average(Gating::momentary());
    assert_eq!(Err(Error::InvalidSampleRate(0)), builder.build().map(|_| ()));

    // A zero hop.
    let zero_hop = Gating { gate_len_ms: 400, delta_len_ms: 0 };
    let mut builder = PipelineBuilder::new(48000, g_weights());
    builder.average(zero_hop);
    assert_eq!(Err(Error::InvalidGating(zero_hop)), builder.build().map(|_| ()));

    // A window that is not a multiple of the hop.
    let ragged = Gating { gate_len_ms: 450, delta_len_ms: 100 };
    let mut builder = PipelineBuilder::new(48000, g_weights());
    builder.maximum(ragged);
    assert_eq!(Err(Error::InvalidGating(ragged)), builder.build().map(|_| ()));

    // A hop that comes to zero samples at a tiny sample rate.
    let momentary = Gating::momentary();
    let mut builder = PipelineBuilder::new(1, g_weights());
    builder.average(momentary);
    assert_eq!(Err(Error::InvalidGating(momentary)), builder.build().map(|_| ()));

    // No measurement at all.
    let builder = PipelineBuilder::new(48000, g_weights());
    assert_eq!(Err(Error::NoMeasurements), builder.build().map(|_| ()));

    // A valid configuration builds an empty pipeline.
    let mut builder = PipelineBuilder::new(48000, g_weights());
    builder.average(Gating::momentary());
    builder.maximum(Gating::shortterm());
    let mut pipeline = builder.build().unwrap();
    assert!(!pipeline.is_noop());
    assert!(pipeline.pop_layer().is_none());
}

#[test]
fn maximum_measurement_reports_loudest_window() {
    // A quiet half followed by a loud half: the maximum over momentary
    // windows must exceed the integrated loudness of the quiet half.
    const SAMPLE_RATE: u32 = 8000;
    let mut builder = PipelineBuilder::new(SAMPLE_RATE, g_weights());
    builder.average(Gating::momentary());
    builder.maximum(Gating::momentary());
    let mut pipeline = builder.build().unwrap();
    pipeline.push_layer();

    let mut quiet = sine_frames([440.0, 0.0, 0.0, 0.0, 0.0], SAMPLE_RATE, 8000);
    for f in quiet.iter_mut() {
        let mut xs = [0.0f64; 5];
        for ch in 0..5 {
            xs[ch] = f64::from_bits(f.channel(ch)) * 0.01;
        }
        *f = frame(xs);
    }
    pipeline.feed(&quiet);
    let loud = sine_frames([440.0, 0.0, 0.0, 0.0, 0.0], SAMPLE_RATE, 8000);
    pipeline.feed(&loud);

    let out = pipeline.pop_layer().unwrap();
    let (max_gating, max_value) = out.maximums[0].clone();
    assert_eq!(Gating::momentary(), max_gating);
    let max_value = f64::from_bits(max_value.unwrap());
    let integrated = average_of(&out, Gating::momentary()).unwrap();
    assert!(max_value.is_finite());
    assert!(max_value >= integrated - 3.5);
    assert!(max_value > -70.0);
}
