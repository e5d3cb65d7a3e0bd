use regulus::util::Util;
use regulus::channel::Channel;
use regulus::frame::Frame;

fn frame(xs: [f64; 5]) -> Frame {
    Frame::new(vec![
        xs[0].to_bits(),
        xs[1].to_bits(),
        xs[2].to_bits(),
        xs[3].to_bits(),
        xs[4].to_bits(),
    ])
}

#[test]
fn ms_to_samples() {
    let inputs_and_expected = vec![
        ((100, 44100), 4410),
        ((100, 44123), 4412),
        ((1, 44100), 44),
        ((1, 44600), 45),
        ((1, 44500), 45),
        ((1, 44499), 44),
        ((487, 12345), 6012),
        ((489, 12345), 6037),
    ];

    for (inputs, expected) in inputs_and_expected {
        let (ms, sample_rate) = inputs;
        let produced = Util::ms_to_samples(ms, sample_rate);

        assert_eq!(expected, produced)
    }
}

#[test]
fn lufs_conversion() {
    // log10(100) and log10(1) are exact, so those conversions match the
    // formula bit for bit; elsewhere the logarithm may differ from the
    // platform's by one unit in the last place.
    for x in [100.0f64, 1.0] {
        let expected = -0.691 + 10.0 * x.log10();
        let produced = f64::from_bits(Util::lufs(x.to_bits()));
        assert_eq!(expected.to_bits(), produced.to_bits());
    }
    for x in [0.25f64, 2.0e-5] {
        let expected = -0.691 + 10.0 * x.log10();
        let produced = f64::from_bits(Util::lufs(x.to_bits()));
        let ulps = (expected.to_bits() as i64 - produced.to_bits() as i64).abs();
        assert!(ulps <= 1, "{:?} vs {:?}", expected, produced);
    }
}

#[test]
fn lufs_hist_counts() {
    // A zero count yields the reference; otherwise the sum is divided by
    // the count before the conversion.
    let reference = (-70.0f64).to_bits();
    assert_eq!(reference, Util::lufs_hist(0, 1.25f64.to_bits(), reference));

    let expected = -0.691 + 10.0 * (1.0f64 / 4.0).log10();
    let produced = Util::lufs_hist(4, 1.0f64.to_bits(), reference);
    assert_eq!(expected.to_bits(), produced);
}

#[test]
fn denormal_flush() {
    assert_eq!(0.0f64.to_bits(), Util::den(1.0e-16f64.to_bits()));
    assert_eq!(0.0f64.to_bits(), Util::den((-1.0e-16f64).to_bits()));
    assert_eq!(1.0e-14f64.to_bits(), Util::den(1.0e-14f64.to_bits()));
    assert_eq!((-2.5f64).to_bits(), Util::den((-2.5f64).to_bits()));
    assert_eq!(0.0f64.to_bits(), Util::den(0.0f64.to_bits()));
}

#[test]
fn frame_peak_absolute_maximum() {
    let f = frame([-0.1, 0.2, -0.3, 0.4, -0.5]);
    assert_eq!(0.5f64.to_bits(), Util::frame_peak(&f));

    let silent = frame([0.0; 5]);
    assert_eq!(0.0f64.to_bits(), Util::frame_peak(&silent));

    let mixed = frame([1.5, -2.5, 0.0, 2.5, -1.0]);
    assert_eq!(2.5f64.to_bits(), Util::frame_peak(&mixed));
}

#[test]
fn channel_weights() {
    assert_eq!(1.0f64.to_bits(), Channel::Left.weight());
    assert_eq!(1.0f64.to_bits(), Channel::Right.weight());
    assert_eq!(1.0f64.to_bits(), Channel::Center.weight());
    assert_eq!(1.41f64.to_bits(), Channel::LeftSurround.weight());
    assert_eq!(1.41f64.to_bits(), Channel::RightSurround.weight());
    assert_eq!(5, Channel::count());
}
