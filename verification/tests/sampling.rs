use iq_curves::grid::{sample, sample_sum, SamplePoint, INTERVALS, POINT_COUNT};
use iq_curves::model::{SignalApp, SignalParameters};
use std::f64::consts::PI;

const X0: f64 = -2.0;
const X1: f64 = 2.0 * PI;

fn abscissa(k: usize) -> f64 {
    let dx = (X1 - X0) / (INTERVALS as f64);
    X0 + (k as f64 * dx)
}

fn wave_i(a: f64, f: f64, x: f64, phi: f64) -> f64 {
    a * (2.0 * PI * f * x + phi).sin()
}

fn wave_q(a: f64, f: f64, x: f64, phi: f64) -> f64 {
    a * (2.0 * PI * f * x + phi).cos()
}

fn sum(a: f64, b: f64) -> f64 {
    a + b
}

fn params(amplitude: f64, frequency: f64, phase: f64) -> SignalParameters<f64> {
    SignalParameters { amplitude, frequency, phase }
}

#[test]
fn grid_has_2049_points() {
    assert_eq!(INTERVALS, 2048);
    assert_eq!(POINT_COUNT, 2049);
    let p = params(3.5, -7.0, 0.25);
    assert_eq!(sample(&p, &abscissa, &wave_i).len(), 2049);
    assert_eq!(sample(&p, &abscissa, &wave_q).len(), 2049);
    let q = params(0.0, 1e9, -4.0);
    assert_eq!(sample_sum(&p, &q, &abscissa, &wave_i, &wave_q, &sum).len(), 2049);
}

#[test]
fn sampler_hands_each_index_to_the_abscissa_in_order() {
    let p = params(1.0, 1.0, 0.0);
    let index = |k: usize| k as f64;
    let echo = |_a: f64, _f: f64, x: f64, _phi: f64| 10.0 * x;
    let points = sample(&p, &index, &echo);
    assert_eq!(points.len(), 2049);
    for (k, point) in points.iter().enumerate() {
        assert_eq!(point.x, k as f64);
        assert_eq!(point.y, 10.0 * k as f64);
    }
}

#[test]
fn sampler_hands_parameters_in_order() {
    let p = params(2.0, 3.0, 5.0);
    let index = |k: usize| k as f64;
    let digits = |a: f64, f: f64, x: f64, phi: f64| 1000.0 * a + 100.0 * f + 10.0 * phi + x;
    let points = sample(&p, &index, &digits);
    assert_eq!(points[0], SamplePoint { x: 0.0, y: 2350.0 });
    assert_eq!(points[7], SamplePoint { x: 7.0, y: 2357.0 });
}

#[test]
fn domain_runs_from_minus_two_to_two_pi() {
    let p = params(1.0, 1.0, 0.0);
    let points = sample(&p, &abscissa, &wave_i);
    assert_eq!(points[0].x, -2.0);
    assert!((points[2048].x - 2.0 * PI).abs() < 1e-12);
    let dx = (2.0 * PI + 2.0) / 2048.0;
    for k in 1..points.len() {
        assert!(points[k - 1].x < points[k].x);
        assert!((points[k].x - points[k - 1].x - dx).abs() < 1e-12);
    }
}

#[test]
fn domain_is_the_same_for_any_parameters() {
    let a = sample(&params(1.0, 1.0, 0.0), &abscissa, &wave_i);
    let b = sample(&params(-40.0, 0.0, 1e6), &abscissa, &wave_q);
    for k in 0..2049 {
        assert_eq!(a[k].x.to_bits(), b[k].x.to_bits());
    }
}

#[test]
fn values_follow_the_closed_form() {
    let p = params(1.5, 0.75, 0.3);
    let i = sample(&p, &abscissa, &wave_i);
    let q = sample(&p, &abscissa, &wave_q);
    for k in 0..2049 {
        let x = -2.0 + (k as f64 * ((2.0 * PI + 2.0) / 2048.0));
        assert_eq!(i[k].x.to_bits(), x.to_bits());
        assert_eq!(i[k].y.to_bits(), (1.5 * (2.0 * PI * 0.75 * x + 0.3).sin()).to_bits());
        assert_eq!(q[k].y.to_bits(), (1.5 * (2.0 * PI * 0.75 * x + 0.3).cos()).to_bits());
    }
}

#[test]
fn sampling_twice_gives_identical_bits() {
    let p = params(0.7, 2.0, -1.1);
    let q = params(1.3, 5.0, 0.4);
    let first = sample(&p, &abscissa, &wave_i);
    let second = sample(&p, &abscissa, &wave_i);
    let sum_first = sample_sum(&p, &q, &abscissa, &wave_i, &wave_q, &sum);
    let sum_second = sample_sum(&p, &q, &abscissa, &wave_i, &wave_q, &sum);
    for k in 0..2049 {
        assert_eq!(first[k].x.to_bits(), second[k].x.to_bits());
        assert_eq!(first[k].y.to_bits(), second[k].y.to_bits());
        assert_eq!(sum_first[k].x.to_bits(), sum_second[k].x.to_bits());
        assert_eq!(sum_first[k].y.to_bits(), sum_second[k].y.to_bits());
    }
}

#[test]
fn combined_is_the_pointwise_sum() {
    let p = params(0.7, 2.0, -1.1);
    let q = params(1.3, 5.0, 0.4);
    let i = sample(&p, &abscissa, &wave_i);
    let qs = sample(&q, &abscissa, &wave_q);
    let both = sample_sum(&p, &q, &abscissa, &wave_i, &wave_q, &sum);
    assert_eq!(both.len(), i.len());
    assert_eq!(both.len(), qs.len());
    for k in 0..2049 {
        assert_eq!(both[k].x.to_bits(), i[k].x.to_bits());
        assert_eq!(both[k].x.to_bits(), qs[k].x.to_bits());
        assert_eq!(both[k].y.to_bits(), (i[k].y + qs[k].y).to_bits());
    }
}

#[test]
fn combined_keeps_the_order_of_its_operands() {
    let p = params(1.0, 0.0, 0.0);
    let q = params(2.0, 0.0, 0.0);
    let index = |k: usize| k as f64;
    let amp = |a: f64, _f: f64, _x: f64, _phi: f64| a;
    let pair = |a: f64, b: f64| 10.0 * a + b;
    let both = sample_sum(&p, &q, &index, &amp, &amp, &pair);
    assert_eq!(both[0], SamplePoint { x: 0.0, y: 12.0 });
    assert_eq!(both[2048], SamplePoint { x: 2048.0, y: 12.0 });
}

#[test]
fn zero_amplitude_gives_zero_everywhere() {
    for &(f, phi) in [(1.0, 0.0), (-3.5, 2.0), (1e6, -0.1), (0.0, 0.0)].iter() {
        let p = params(0.0, f, phi);
        for point in sample(&p, &abscissa, &wave_i) {
            assert_eq!(point.y, 0.0);
        }
        for point in sample(&p, &abscissa, &wave_q) {
            assert_eq!(point.y, 0.0);
        }
    }
}

#[test]
fn phase_shift_by_a_full_turn_changes_nothing() {
    let base = sample(&params(1.2, 1.0, 0.4), &abscissa, &wave_i);
    let turned = sample(&params(1.2, 1.0, 0.4 + 2.0 * PI), &abscissa, &wave_i);
    for k in 0..2049 {
        assert!((base[k].y - turned[k].y).abs() < 1e-9);
    }
}

#[test]
fn non_finite_values_pass_through() {
    let p = params(f64::INFINITY, 1.0, 0.0);
    let points = sample(&p, &abscissa, &wave_q);
    assert_eq!(points.len(), 2049);
    assert!(points.iter().any(|point| !point.y.is_finite()));
    let n = params(1.0, f64::NAN, 0.0);
    assert!(sample(&n, &abscissa, &wave_i).iter().all(|point| point.y.is_nan()));
}

#[test]
fn unit_signals_at_the_origin() {
    let app = SignalApp::new(params(1.0, 1.0, 0.0));
    let origin = |_k: usize| 0.0f64;
    let i = app.i_points(&origin, &wave_i);
    let q = app.q_points(&origin, &wave_q);
    let both = app.iq_points(&origin, &wave_i, &wave_q, &sum);
    assert_eq!(i[0], SamplePoint { x: 0.0, y: 0.0 });
    assert_eq!(q[0], SamplePoint { x: 0.0, y: 1.0 });
    assert_eq!(both[0], SamplePoint { x: 0.0, y: 1.0 });
}

#[test]
fn half_frequency_at_pi() {
    let p = params(2.0, 0.5, 0.0);
    let at_pi = |_k: usize| PI;
    let i = sample(&p, &at_pi, &wave_i);
    assert_eq!(i[0].x, PI);
    assert_eq!(i[0].y.to_bits(), (2.0 * (2.0 * PI * 0.5 * PI + 0.0).sin()).to_bits());
    assert!((i[0].y - 2.0 * (PI * PI).sin()).abs() < 1e-12);
}

#[test]
fn half_frequency_at_one_is_a_zero_crossing() {
    let p = params(2.0, 0.5, 0.0);
    let at_one = |_k: usize| 1.0f64;
    let i = sample(&p, &at_one, &wave_i);
    assert!(i[0].y.abs() < 1e-12);
    assert_eq!(i[0].y.to_bits(), (2.0 * PI.sin()).to_bits());
}
