use rustquant::engine::{simulate, simulate_path, SimulationError};
use rustquant::extended_vasicek::ExtendedVasicek;
use rustquant::fixed::{fixed_add, fixed_mul, fixed_sqrt, fixed_sub, SCALE};
use rustquant::process::EulerMaruyama;
use rustquant::random::{mix64, normal_draw};
use rustquant::time_dependent::TimeDependent;

fn fx(v: f64) -> i64 {
    (v * SCALE as f64).round() as i64
}

fn model(alpha: f64, sigma: f64, theta: f64) -> ExtendedVasicek {
    ExtendedVasicek::new(
        TimeDependent::constant(fx(alpha)),
        TimeDependent::constant(fx(sigma)),
        TimeDependent::constant(fx(theta)),
    )
}

#[test]
fn output_shape_and_start() {
    let m = model(1.0, 0.3, 0.2);
    let o = simulate(&m, fx(1.5), fx(0.0), fx(2.0), 7, 5, false, 42).unwrap();
    assert_eq!(o.path_count(), 5);
    assert_eq!(o.path_len(), 8);
    assert_eq!(o.times.len(), 8);
    for p in 0..5 {
        assert_eq!(o.paths[p].len(), 8);
        assert_eq!(o.point(p, 0), fx(1.5));
    }
    let terminal = o.terminal_values();
    assert_eq!(terminal.len(), 5);
    for p in 0..5 {
        assert_eq!(terminal[p], o.paths[p][7]);
    }
}

#[test]
fn uniform_time_grid() {
    let m = model(1.0, 0.3, 0.2);
    let o = simulate(&m, 0, fx(1.0), fx(2.0), 4, 1, false, 1).unwrap();
    assert_eq!(o.times, vec![fx(1.0), fx(1.25), fx(1.5), fx(1.75), fx(2.0)]);
}

#[test]
fn zero_diffusion_follows_euler_scheme() {
    let m = model(2.0, 0.0, 0.5);
    let o = simulate(&m, fx(10.0), fx(0.0), fx(1.0), 4, 6, false, 9).unwrap();
    let expected = vec![fx(10.0), fx(5.125), fx(2.6875), fx(1.46875), fx(0.859375)];
    for p in 0..6 {
        assert_eq!(o.paths[p], expected);
    }
}

#[test]
fn invalid_configurations_are_refused() {
    let m = model(1.0, 1.0, 0.0);
    assert_eq!(simulate(&m, 0, 0, fx(1.0), 0, 10, false, 0).err(), Some(SimulationError::NoSteps));
    assert_eq!(simulate(&m, 0, 0, fx(1.0), 10, 0, false, 0).err(), Some(SimulationError::NoPaths));
    assert_eq!(simulate(&m, 0, fx(1.0), fx(1.0), 10, 10, false, 0).err(), Some(SimulationError::EmptyHorizon));
    assert_eq!(simulate(&m, 0, fx(2.0), fx(1.0), 10, 10, false, 0).err(), Some(SimulationError::EmptyHorizon));
    assert_eq!(simulate(&m, 0, fx(2.0), fx(1.0), 0, 0, false, 0).err(), Some(SimulationError::NoSteps));
    assert_eq!(m.euler_maruyama(0, 0, fx(1.0), 5, 0, true).err(), Some(SimulationError::NoPaths));
}

#[test]
fn antithetic_paths_mirror_each_other() {
    // Pure Brownian motion: increments are the scaled draws themselves.
    let m = model(0.0, 1.0, 0.0);
    let o = simulate(&m, 0, 0, fx(1.0), 50, 4, true, 3).unwrap();
    for pair in 0..2 {
        let a = &o.paths[2 * pair];
        let b = &o.paths[2 * pair + 1];
        assert_ne!(a, b);
        for n in 0..=50 {
            let s = a[n] + b[n];
            assert!(s <= 0 && s >= -(2 * n as i64), "step {}: {}", n, s);
        }
    }
}

#[test]
fn antithetic_pairing_reduces_mean_variance() {
    let m = model(0.0, 1.0, 0.0);
    let spread = |antithetic: bool| -> f64 {
        let mut total = 0.0;
        for seed in 0..20u64 {
            let o = simulate(&m, 0, 0, fx(1.0), 10, 40, antithetic, seed).unwrap();
            let t = o.terminal_values();
            let mean = t.iter().map(|v| *v as f64 / SCALE as f64).sum::<f64>() / t.len() as f64;
            total += mean * mean;
        }
        total / 20.0
    };
    assert!(spread(true) < spread(false));
}

#[test]
fn single_path_matches_ensemble() {
    let m = model(1.5, 0.8, 0.3);
    let o = simulate(&m, fx(0.4), fx(0.0), fx(3.0), 30, 6, true, 77).unwrap();
    let dt = o.times[1] - o.times[0];
    for p in (0..6).rev() {
        let path = simulate_path(&m, fx(0.4), fx(0.0), dt, 30, 77, true, p);
        assert_eq!(path, o.paths[p]);
    }
}

#[test]
fn parallel_flag_does_not_change_output() {
    let m = model(2.0, 2.0, 0.5);
    let a = m.euler_maruyama(fx(10.0), 0, fx(1.0), 20, 8, false).unwrap();
    let b = m.euler_maruyama(fx(10.0), 0, fx(1.0), 20, 8, true).unwrap();
    assert_eq!(a.times, b.times);
    assert_eq!(a.paths, b.paths);
}

#[test]
fn seeds_and_streams_give_distinct_draws() {
    let m = model(0.0, 1.0, 0.0);
    let a = simulate(&m, 0, 0, fx(1.0), 10, 3, false, 5).unwrap();
    let b = simulate(&m, 0, 0, fx(1.0), 10, 3, false, 5).unwrap();
    let c = simulate(&m, 0, 0, fx(1.0), 10, 3, false, 6).unwrap();
    assert_eq!(a.paths, b.paths);
    assert_ne!(a.paths, c.paths);
    assert_ne!(a.paths[0], a.paths[1]);
}

#[test]
fn normal_draws_have_unit_variance() {
    let n = 20000u64;
    let mut sum = 0.0;
    let mut sq = 0.0;
    for k in 0..n {
        let z = normal_draw(11, 0, k);
        assert!(z >= -6 * SCALE && z <= 6 * SCALE);
        let z = z as f64 / SCALE as f64;
        sum += z;
        sq += z * z;
    }
    let mean = sum / n as f64;
    let var = sq / n as f64 - mean * mean;
    assert!(mean.abs() < 0.05, "{}", mean);
    assert!((var - 1.0).abs() < 0.05, "{}", var);
}

#[test]
fn mixer_matches_splitmix64() {
    assert_eq!(mix64(0), 0);
    assert_eq!(mix64(0x9e37_79b9_7f4a_7c15), 0xe220_a839_7b1d_cdaf);
}

#[test]
fn fixed_point_arithmetic() {
    assert_eq!(fixed_mul(fx(2.0), fx(3.0)), fx(6.0));
    assert_eq!(fixed_mul(fx(-1.5), fx(0.5)), fx(-0.75));
    assert_eq!(fixed_mul(-1, 1), -1);
    assert_eq!(fixed_mul(1, 1), 0);
    assert_eq!(fixed_mul(i64::MAX, fx(2.0)), i64::MAX);
    assert_eq!(fixed_add(i64::MAX, 1), i64::MAX);
    assert_eq!(fixed_sub(i64::MIN, 1), i64::MIN);
    assert_eq!(fixed_sqrt(fx(0.25)), fx(0.5));
    assert_eq!(fixed_sqrt(fx(2.0)), 1_414_213_562);
    assert_eq!(fixed_sqrt(0), 0);
}
