use regulus::filter::{Coefficients, Filter, FilterChain, Kind};
use regulus::frame::Frame;

fn frame(xs: [f64; 5]) -> Frame {
    Frame::new(vec![
        xs[0].to_bits(),
        xs[1].to_bits(),
        xs[2].to_bits(),
        xs[3].to_bits(),
        xs[4].to_bits(),
    ])
}

fn assert_close(expected: f64, produced: f64) {
    assert!(
        (expected - produced).abs() <= f64::EPSILON,
        "{:?} vs {:?}",
        expected,
        produced
    );
}

fn assert_coeffs_close(expected: [f64; 5], produced: &Coefficients) {
    // Order: a1, a2, b0, b1, b2.
    assert_close(expected[0], f64::from_bits(produced.a1));
    assert_close(expected[1], f64::from_bits(produced.a2));
    assert_close(expected[2], f64::from_bits(produced.b0));
    assert_close(expected[3], f64::from_bits(produced.b1));
    assert_close(expected[4], f64::from_bits(produced.b2));
}

#[test]
fn params_new() {
    let produced = Coefficients::new(Kind::Shelving, 48000);
    assert_coeffs_close(
        [
            -1.6906592931824103,
            0.7324807742158501,
            1.5351248595869702,
            -2.6916961894063807,
            1.19839281085285,
        ],
        &produced,
    );

    let produced = Coefficients::new(Kind::Shelving, 44100);
    assert_coeffs_close(
        [
            -1.6636551132560204,
            0.7125954280732254,
            1.5308412300503478,
            -2.6509799951547297,
            1.169079079921587,
        ],
        &produced,
    );

    let produced = Coefficients::new(Kind::Shelving, 8000);
    assert_coeffs_close(
        [
            -0.2933807824149212,
            0.18687510604540827,
            1.3216235689299776,
            -0.7262554913156911,
            0.2981262460162007,
        ],
        &produced,
    );

    let produced = Coefficients::new(Kind::Shelving, 192000);
    assert_coeffs_close(
        [
            -1.9222022306074886,
            0.925117735116826,
            1.5722272150912788,
            -3.0472830515615508,
            1.4779713409796091,
        ],
        &produced,
    );

    let produced = Coefficients::new(Kind::HighPass, 48000);
    assert_coeffs_close(
        [
            -1.99004745483398,
            0.99007225036621,
            1.00000000000000,
            -2.00000000000000,
            1.00000000000000,
        ],
        &produced,
    );
}

#[test]
fn coefficients() {
    // The analytically derived coefficients at 48 kHz are very close to
    // the tabulated ITU BS.1770 values, but not equal to them; these are
    // the exactly expected derived values.
    let produced = Coefficients::new(Kind::Shelving, 48000);
    assert_eq!((-1.6906592931824103f64).to_bits(), produced.a1);
    assert_eq!(0.7324807742158501f64.to_bits(), produced.a2);
    assert_eq!(1.5351248595869702f64.to_bits(), produced.b0);
    assert_eq!((-2.6916961894063807f64).to_bits(), produced.b1);
    assert_eq!(1.19839281085285f64.to_bits(), produced.b2);

    let produced = Coefficients::new(Kind::Shelving, 44100);
    assert_eq!((-1.6636551132560204f64).to_bits(), produced.a1);
    assert_eq!(0.7125954280732254f64.to_bits(), produced.a2);
    assert_eq!(1.5308412300503478f64.to_bits(), produced.b0);
    assert_eq!((-2.6509799951547297f64).to_bits(), produced.b1);
    assert_eq!(1.169079079921587f64.to_bits(), produced.b2);

    let produced = Coefficients::new(Kind::Shelving, 8000);
    assert_eq!((-0.2933807824149212f64).to_bits(), produced.a1);
    assert_eq!(0.18687510604540827f64.to_bits(), produced.a2);
    assert_eq!(1.3216235689299776f64.to_bits(), produced.b0);
    assert_eq!((-0.7262554913156911f64).to_bits(), produced.b1);
    assert_eq!(0.2981262460162007f64.to_bits(), produced.b2);

    let produced = Coefficients::new(Kind::Shelving, 192000);
    assert_eq!((-1.9222022306074886f64).to_bits(), produced.a1);
    assert_eq!(0.9251177351168259f64.to_bits(), produced.a2);
    assert_eq!(1.572227215091279f64.to_bits(), produced.b0);
    assert_eq!((-3.0472830515615508f64).to_bits(), produced.b1);
    assert_eq!(1.4779713409796094f64.to_bits(), produced.b2);

    let produced = Coefficients::new(Kind::HighPass, 48000);
    assert_eq!((-1.9900474548339797f64).to_bits(), produced.a1);
    assert_eq!(0.9900722503662099f64.to_bits(), produced.a2);
    assert_eq!(1.0f64.to_bits(), produced.b0);
    assert_eq!((-2.0f64).to_bits(), produced.b1);
    assert_eq!(1.0f64.to_bits(), produced.b2);
}

#[test]
fn filter_new() {
    let filter = Filter::new(Kind::Shelving, 48000);

    assert_coeffs_close(
        [
            -1.6906592931824103,
            0.7324807742158501,
            1.5351248595869702,
            -2.6916961894063807,
            1.19839281085285,
        ],
        &filter.coeff,
    );
    for ch in 0..5 {
        assert_eq!(0.0f64.to_bits(), filter.s1.channel(ch));
        assert_eq!(0.0f64.to_bits(), filter.s2.channel(ch));
    }
}

#[test]
fn filter_apply() {
    let mut filter = Filter::new(Kind::Shelving, 48000);

    let expected_rows = vec![
        [-1.5351248595869702, -0.7675624297934851, 0.0, 0.7675624297934851, 1.5351248595869702],
        [-1.4388017802366435, -0.7194008901183218, 0.0, 0.7194008901183218, 1.4388017802366435],
        [-1.3498956361696552, -0.6749478180848276, 0.0, 0.6749478180848276, 1.3498956361696552],
        [-1.2701404412191692, -0.6350702206095846, 0.0, 0.6350702206095846, 1.2701404412191692],
        [-1.2004236209352888, -0.6002118104676444, 0.0, 0.6002118104676444, 1.2004236209352888],
        [-1.1409753777762859, -0.5704876888881429, 0.0, 0.5704876888881429, 1.1409753777762859],
        [-1.0915348835135539, -0.5457674417567769, 0.0, 0.5457674417567769, 1.0915348835135539],
        [-1.0514925476036132, -0.5257462738018066, 0.0, 0.5257462738018066, 1.0514925476036132],
    ];

    let input = frame([-1.0, -0.5, 0.0, 0.5, 1.0]);

    for expected in expected_rows {
        let produced = filter.apply(&input);
        for ch in 0..5 {
            assert_close(expected[ch], f64::from_bits(produced.channel(ch)));
        }
    }
}

#[test]
fn filter_chain_composes_stages() {
    // The chain must equal a shelving stage followed by a high-pass
    // stage, bit for bit.
    let mut chain = FilterChain::new(48000);
    let mut pass_a = Filter::new(Kind::Shelving, 48000);
    let mut pass_b = Filter::new(Kind::HighPass, 48000);

    let inputs = [
        [0.5, -0.25, 0.125, 1.0, -1.0],
        [0.1, 0.1, 0.1, 0.1, 0.1],
        [-0.75, 0.33, 0.0, 0.9, -0.2],
    ];
    for xs in inputs {
        let x = frame(xs);
        let chained = chain.apply(&x);
        let staged = pass_b.apply(&pass_a.apply(&x));
        for ch in 0..5 {
            assert_eq!(staged.channel(ch), chained.channel(ch));
        }
    }
}
