use regulus::frame::Frame;
use regulus::gating::{GatedPowers, Gating};
use regulus::mean_sq::MeanSquare;
use regulus::peak::RunningPeak;
use regulus::stats::Stats;

fn frame(xs: [f64; 5]) -> Frame {
    Frame::new(vec![
        xs[0].to_bits(),
        xs[1].to_bits(),
        xs[2].to_bits(),
        xs[3].to_bits(),
        xs[4].to_bits(),
    ])
}

fn chans(f: &Frame) -> [f64; 5] {
    [
        f64::from_bits(f.channel(0)),
        f64::from_bits(f.channel(1)),
        f64::from_bits(f.channel(2)),
        f64::from_bits(f.channel(3)),
        f64::from_bits(f.channel(4)),
    ]
}

fn assert_close(expected: f64, produced: f64) {
    assert!(
        (expected - produced).abs() <= f64::EPSILON,
        "{:?} vs {:?}",
        expected,
        produced
    );
}

#[test]
fn mean_square() {
    let mut mean_sq = MeanSquare::new();
    assert_eq!(mean_sq.num_samples(), 0);

    let expected = [0.0f64; 5];
    let produced = chans(&mean_sq.mean_sqs());
    for ch in 0..5 {
        assert_close(expected[ch], produced[ch]);
    }

    mean_sq.add_samples(&vec![
        frame([0.1, 0.2, 0.3, 0.4, 0.5]),
        frame([0.1, 0.2, 0.3, 0.4, 0.5]),
        frame([0.1, 0.2, 0.3, 0.4, 0.5]),
    ]);
    assert_eq!(mean_sq.num_samples(), 3);

    let expected = [0.01, 0.04, 0.09, 0.16, 0.25];
    let produced = chans(&mean_sq.mean_sqs());
    for ch in 0..5 {
        assert_close(expected[ch], produced[ch]);
    }

    mean_sq.add_samples(&vec![frame([1.0, 1.0, 1.0, 1.0, 1.0])]);
    assert_eq!(mean_sq.num_samples(), 4);

    let expected = [0.2575, 0.28, 0.3175, 0.37, 0.4375];
    let produced = chans(&mean_sq.mean_sqs());
    for ch in 0..5 {
        assert_close(expected[ch], produced[ch]);
    }

    mean_sq.add_samples(&vec![frame([-1.0, -0.5, 0.0, 0.5, 1.0])]);
    assert_eq!(mean_sq.num_samples(), 5);

    let expected = [0.406, 0.274, 0.254, 0.346, 0.55];
    let produced = chans(&mean_sq.mean_sqs());
    for ch in 0..5 {
        assert_close(expected[ch], produced[ch]);
    }

    mean_sq.add_samples(&vec![frame([0.0, 0.2, 0.4, 0.6, 0.8])]);
    assert_eq!(mean_sq.num_samples(), 6);

    let expected = [
        0.3383333333333334,
        0.235,
        0.23833333333333337,
        0.34833333333333333,
        0.565,
    ];
    let produced = chans(&mean_sq.mean_sqs());
    for ch in 0..5 {
        assert_close(expected[ch], produced[ch]);
    }

    mean_sq.add_samples(&vec![
        frame([1.0, 1.0, 1.0, 1.0, 1.0]),
        frame([1.0, 1.0, 1.0, 1.0, 1.0]),
        frame([1.0, 1.0, 1.0, 1.0, 1.0]),
    ]);
    assert_eq!(mean_sq.num_samples(), 9);

    let expected = [
        0.5588888888888889,
        0.49,
        0.49222222222222217,
        0.5655555555555556,
        0.71,
    ];
    let produced = chans(&mean_sq.mean_sqs());
    for ch in 0..5 {
        assert_close(expected[ch], produced[ch]);
    }
}

#[test]
fn running_peak() {
    let mut running_peak = RunningPeak::new();
    running_peak.push(&frame([0.0, 0.0, 0.0, 0.0, 0.0]));
    running_peak.push(&frame([-0.1, 0.2, -0.3, 0.4, -0.5]));

    let expected = [0.1, 0.2, 0.3, 0.4, 0.5];
    let produced = chans(running_peak.peaks());
    for ch in 0..5 {
        assert_close(expected[ch], produced[ch]);
    }

    let mut running_peak = RunningPeak::new();
    running_peak.push(&frame([0.1, 0.2, 0.3, 0.4, 0.5]));
    running_peak.push(&frame([-1.0, 1.0, -1.0, 1.0, -1.0]));

    let expected = [1.0, 1.0, 1.0, 1.0, 1.0];
    let produced = chans(running_peak.peaks());
    for ch in 0..5 {
        assert_close(expected[ch], produced[ch]);
    }

    let running_peak = RunningPeak::new();
    assert_eq!(0.0f64.to_bits(), running_peak.peaks().channel(0));
}

fn validate(expected_mean: [f64; 5], expected_count: u64, produced: &Stats) {
    let produced_mean = chans(&produced.mean);
    for ch in 0..5 {
        assert_close(expected_mean[ch], produced_mean[ch]);
    }
    assert_eq!(expected_count, produced.count);
}

#[test]
fn stats_add() {
    const INITIAL: [f64; 5] = [0.1, 0.2, 0.3, 0.4, 0.5];

    let mut stats = Stats::new();
    validate([0.0; 5], 0, &stats);

    stats.add(&frame(INITIAL));
    validate(INITIAL, 1, &stats);

    stats.add(&frame(INITIAL));
    stats.add(&frame(INITIAL));
    validate(INITIAL, 3, &stats);

    stats.add(&frame([1.0, 1.0, 1.0, 1.0, 1.0]));
    validate(
        [1.3 / 4.0, 1.6 / 4.0, 1.9 / 4.0, 2.2 / 4.0, 2.5 / 4.0],
        4,
        &stats,
    );

    stats.add(&frame([-1.0, -0.5, 0.0, 0.5, 1.0]));
    validate(
        [0.3 / 5.0, 1.1 / 5.0, 1.9 / 5.0, 2.7 / 5.0, 3.5 / 5.0],
        5,
        &stats,
    );

    stats.add(&frame([0.0, 0.2, 0.4, 0.6, 0.8]));
    validate(
        [0.3 / 6.0, 1.3 / 6.0, 2.3 / 6.0, 3.3 / 6.0, 4.3 / 6.0],
        6,
        &stats,
    );

    stats.add(&frame([1.0, 1.0, 1.0, 1.0, 1.0]));
    stats.add(&frame([1.0, 1.0, 1.0, 1.0, 1.0]));
    stats.add(&frame([1.0, 1.0, 1.0, 1.0, 1.0]));
    validate(
        [3.3 / 9.0, 4.3 / 9.0, 5.3 / 9.0, 6.3 / 9.0, 7.3 / 9.0],
        9,
        &stats,
    );
}

#[test]
fn stats_merge() {
    let mut stats_a = Stats::new();
    stats_a.add(&frame([0.1, 0.2, 0.3, 0.4, 0.5]));
    stats_a.add(&frame([0.6, 0.7, 0.8, 0.9, 1.0]));

    let mut stats_b = Stats::new();
    stats_b.add(&frame([0.01, 0.02, 0.03, 0.04, 0.05]));
    stats_b.add(&frame([0.06, 0.07, 0.08, 0.09, 0.10]));

    let a_mean = chans(&stats_a.mean);
    let b_mean = chans(&stats_b.mean);
    let a_count = stats_a.count;
    let a_clone = Stats { count: stats_a.count, mean: stats_a.mean.duplicate() };
    let b_clone = Stats { count: stats_b.count, mean: stats_b.mean.duplicate() };
    let a_clone2 = Stats { count: stats_a.count, mean: stats_a.mean.duplicate() };
    let b_clone2 = Stats { count: stats_b.count, mean: stats_b.mean.duplicate() };

    let merged = stats_a.merge(stats_b);
    validate(
        [0.77 / 4.0, 0.99 / 4.0, 1.21 / 4.0, 1.43 / 4.0, 1.65 / 4.0],
        4,
        &merged,
    );

    let merged = b_clone.merge(a_clone);
    validate(
        [0.77 / 4.0, 0.99 / 4.0, 1.21 / 4.0, 1.43 / 4.0, 1.65 / 4.0],
        4,
        &merged,
    );

    // A zero-count mean is the identity of the merge, on either side.
    let stats_empty = Stats::new();
    let merged = a_clone2.merge(stats_empty);
    validate(a_mean, a_count, &merged);

    let merged = Stats::new().merge(b_clone2);
    validate(b_mean, 2, &merged);

    let merged = Stats::new().merge(Stats::new());
    validate([0.0; 5], 0, &merged);
}

#[test]
fn window_mean_of_recent_squares() {
    // gate 2 frames, hop 1 frame at 1 kHz: after each input from the
    // third on, the emitted power is the mean of the squares of the last
    // two inputs.
    let gating = Gating { gate_len_ms: 2, delta_len_ms: 1 };
    let mut gp = GatedPowers::custom(gating, 1000);

    assert!(gp.process(&frame([1.0, 0.0, 0.0, 0.0, 0.0])).is_none());
    let p2 = gp.process(&frame([2.0, 0.0, 0.0, 0.0, 0.0])).unwrap();
    assert_eq!(((1.0f64 + 4.0) / 2.0).to_bits(), p2.channel(0));
    let p3 = gp.process(&frame([3.0, 0.0, 0.0, 0.0, 0.0])).unwrap();
    assert_eq!(((4.0f64 + 9.0) / 2.0).to_bits(), p3.channel(0));
    let p4 = gp.process(&frame([4.0, 0.0, 0.0, 0.0, 0.0])).unwrap();
    assert_eq!(((9.0f64 + 16.0) / 2.0).to_bits(), p4.channel(0));
}

#[test]
fn window_emission_count() {
    // gate 10 frames, hop 5 frames: over 25 inputs the windower emits
    // (25 - 10) / 5 + 1 = 4 power frames, each the exact mean square.
    let gating = Gating { gate_len_ms: 10, delta_len_ms: 5 };
    let mut gp = GatedPowers::custom(gating, 1000);

    let mut emitted = 0;
    for _ in 0..25 {
        if let Some(p) = gp.process(&frame([0.5, 0.5, 0.5, 0.5, 0.5])) {
            emitted += 1;
            for ch in 0..5 {
                assert_eq!(0.25f64.to_bits(), p.channel(ch));
            }
        }
    }
    assert_eq!(4, emitted);

    // With fewer inputs than one window, nothing comes out.
    let mut gp = GatedPowers::custom(gating, 1000);
    for _ in 0..9 {
        assert!(gp.process(&frame([0.5; 5])).is_none());
    }
}
