use rustquant::extended_vasicek::ExtendedVasicek;
use rustquant::fixed::SCALE;
use rustquant::process::{EulerMaruyama, StochasticProcess};
use rustquant::time_dependent::TimeDependent;

fn fx(v: f64) -> i64 {
    (v * SCALE as f64).round() as i64
}

fn to_f64(v: i64) -> f64 {
    v as f64 / SCALE as f64
}

fn mean(v: &[f64]) -> f64 {
    v.iter().sum::<f64>() / v.len() as f64
}

fn terminal_mean(alpha: f64, sigma: f64, theta: f64, x0: f64, t1: f64, steps: usize, n: usize) -> f64 {
    let ev = ExtendedVasicek::new(
        TimeDependent::constant(fx(alpha)),
        TimeDependent::constant(fx(sigma)),
        TimeDependent::constant(fx(theta)),
    );
    let output = ev.euler_maruyama(fx(x0), fx(0.0), fx(t1), steps, n, false).unwrap();
    let x_t: Vec<f64> = output
        .paths
        .iter()
        .filter_map(|v| v.last().cloned())
        .map(to_f64)
        .collect();
    mean(&x_t)
}

#[test]
fn test_extended_vasicek() {
    let sigma = 2.0;
    let alpha = 2.0;
    let theta = 0.5;

    let ev = ExtendedVasicek::new(
        TimeDependent::constant(fx(alpha)),
        TimeDependent::constant(fx(sigma)),
        TimeDependent::constant(fx(theta)),
    );

    let output = ev.euler_maruyama(fx(10.0), fx(0.0), fx(1.0), 150, 1000, false).unwrap();

    let x_t: Vec<f64> = output
        .paths
        .iter()
        .filter_map(|v| v.last().cloned())
        .map(to_f64)
        .collect();

    let e_xt = mean(&x_t);
    let expected =
        (-alpha * 1.0_f64).exp() * 10.0 + (theta / alpha) * (1.0 - alpha * 1.0_f64).exp();
    assert!((e_xt - expected).abs() < 0.25, "{} vs {}", e_xt, expected);
}

#[test]
fn terminal_mean_matches_closed_form() {
    let (alpha, sigma, theta, x0, t) = (2.0_f64, 2.0, 0.5, 10.0, 1.0);
    let e_xt = terminal_mean(alpha, sigma, theta, x0, t, 150, 1000);
    let expected = x0 * (-alpha * t).exp() + (theta / alpha) * (1.0 - (-alpha * t).exp());
    assert!((e_xt - expected).abs() < 0.25, "{} vs {}", e_xt, expected);
}

#[test]
fn vasicek_drift_and_diffusion() {
    let ev = ExtendedVasicek::new(
        TimeDependent::constant(fx(2.0)),
        TimeDependent::linear(fx(1.0), fx(0.5)),
        TimeDependent::constant(fx(0.5)),
    );
    assert_eq!(ev.drift(fx(10.0), fx(0.0)), fx(-19.5));
    assert_eq!(ev.diffusion(fx(10.0), fx(2.0)), fx(2.0));
    assert_eq!(ev.jump(fx(10.0), fx(2.0)), None);
}

#[test]
fn time_dependent_values() {
    let c = TimeDependent::constant(fx(0.75));
    assert_eq!(c.at(fx(0.0)), fx(0.75));
    assert_eq!(c.at(fx(-3.0)), fx(0.75));
    let l = TimeDependent::linear(fx(1.0), fx(-0.5));
    assert_eq!(l.at(fx(0.0)), fx(1.0));
    assert_eq!(l.at(fx(3.0)), fx(-0.5));
    let big = TimeDependent::linear(i64::MAX, fx(1.0));
    assert_eq!(big.at(fx(1.0)), i64::MAX);
}

#[test]
fn schedule_steps_through_knots() {
    let s = TimeDependent::schedule(vec![(fx(0.0), fx(1.0)), (fx(1.0), fx(2.0)), (fx(2.5), fx(-1.0))]);
    assert_eq!(s.at(fx(-1.0)), fx(1.0));
    assert_eq!(s.at(fx(0.0)), fx(1.0));
    assert_eq!(s.at(fx(0.999)), fx(1.0));
    assert_eq!(s.at(fx(1.0)), fx(2.0));
    assert_eq!(s.at(fx(2.4)), fx(2.0));
    assert_eq!(s.at(fx(7.0)), fx(-1.0));
    assert_eq!(TimeDependent::schedule(vec![]).at(fx(3.0)), 0);
}

#[test]
fn time_varying_volatility_path() {
    // Zero volatility up to t = 0.5, so the first half follows the drift alone.
    let ev = ExtendedVasicek::new(
        TimeDependent::constant(fx(1.0)),
        TimeDependent::schedule(vec![(fx(0.0), 0), (fx(0.5), fx(1.0))]),
        TimeDependent::constant(0),
    );
    let o = ev.euler_maruyama(fx(8.0), fx(0.0), fx(1.0), 4, 3, false).unwrap();
    for p in 0..3 {
        assert_eq!(o.paths[p][1], fx(6.0));
        assert_eq!(o.paths[p][2], fx(4.5));
    }
    assert_ne!(o.paths[0][3], o.paths[1][3]);
}
