//! The Euler–Maruyama path simulator.

use vstd::prelude::*;
use crate::fixed::{
    SCALE, fixed_add, fixed_mul, fixed_sqrt, saturate, saturate_wide, spec_fixed_add,
    spec_fixed_mul, sqrt_floor,
};
use crate::output::SimulationOutput;
use crate::process::StochasticProcess;
use crate::random::{normal_draw, spec_normal};

verus! {

/// Why a simulation was refused before any path was generated.
#[derive(Debug, Clone, Copy, PartialEq, Eq, Structural)]
pub enum SimulationError {
    /// `steps` was zero.
    NoSteps,
    /// `n_paths` was zero.
    NoPaths,
    /// The horizon was empty: `t1 <= t0`.
    EmptyHorizon,
}

/// The length of one step when `[t0, t1]` is cut into `steps` equal parts,
/// rounded down.
pub open spec fn spec_time_step(t0: i64, t1: i64, steps: nat) -> i64 {
    saturate((t1 - t0) / (steps as int))
}

/// Grid time `i`: `t0 + i * dt`.
pub open spec fn spec_grid_time(t0: i64, dt: i64, i: nat) -> i64 {
    saturate(t0 + i * dt)
}

/// `sqrt(dt)` as a fixed-point value, rounded down.
pub open spec fn spec_root_step(dt: i64) -> i64 {
    sqrt_floor((dt * SCALE) as nat) as i64
}

/// The normal draw that path `path` uses at step `step`. In antithetic mode
/// paths `2k` and `2k + 1` share stream `k`, the second with the sign flipped.
pub open spec fn spec_draw(seed: u64, antithetic: bool, path: nat, step: nat) -> i64 {
    if antithetic {
        let z = spec_normal(seed, (path / 2) as u64, step as u64);
        if path % 2 == 1 {
            (-z) as i64
        } else {
            z
        }
    } else {
        spec_normal(seed, path as u64, step as u64)
    }
}

/// One Euler–Maruyama step from state `x` at time `t` with normal draw `z`:
/// `x + drift dt + diffusion sqrt(dt) z`, plus the jump if there is one.
pub open spec fn spec_euler_step<P: StochasticProcess>(
    model: &P,
    x: i64,
    t: i64,
    dt: i64,
    root_dt: i64,
    z: i64,
) -> i64 {
    let moved = spec_fixed_add(x, spec_fixed_mul(model.spec_drift(x, t), dt));
    let shocked = spec_fixed_add(
        moved,
        spec_fixed_mul(spec_fixed_mul(model.spec_diffusion(x, t), root_dt), z),
    );
    match model.spec_jump(x, t) {
        Some(j) => spec_fixed_add(shocked, j),
        None => shocked,
    }
}

/// The state after `n` steps from `x0`, step `i` taking draw `draws(i)`.
pub open spec fn spec_state<P: StochasticProcess>(
    model: &P,
    x0: i64,
    t0: i64,
    dt: i64,
    root_dt: i64,
    draws: spec_fn(nat) -> i64,
    n: nat,
) -> i64
    decreases n,
{
    if n == 0 {
        x0
    } else {
        let i = (n - 1) as nat;
        spec_euler_step(
            model,
            spec_state(model, x0, t0, dt, root_dt, draws, i),
            spec_grid_time(t0, dt, i),
            dt,
            root_dt,
            draws(i),
        )
    }
}

/// Point `n` of path `path`.
pub open spec fn spec_path_point<P: StochasticProcess>(
    model: &P,
    x0: i64,
    t0: i64,
    dt: i64,
    seed: u64,
    antithetic: bool,
    path: nat,
    n: nat,
) -> i64 {
    spec_state(
        model,
        x0,
        t0,
        dt,
        spec_root_step(dt),
        |i: nat| spec_draw(seed, antithetic, path, i),
        n,
    )
}

/// Grid time `i` as a fixed-point value.
pub fn grid_time(t0: i64, dt: i64, i: usize) -> (r: i64)
    requires
        dt >= 0,
    ensures
        r == spec_grid_time(t0, dt, i as nat),
{
    assert(0 <= i * dt <= 0xffff_ffff_ffff_ffff * 0x7fff_ffff_ffff_ffff) by (nonlinear_arith)
        requires
            0 <= i <= 0xffff_ffff_ffff_ffff,
            0 <= dt <= 0x7fff_ffff_ffff_ffff,
    ;
    saturate_wide(t0 as i128 + (i as i128) * (dt as i128))
}

/// The normal draw that path `path` uses at step `step`.
pub fn draw(seed: u64, antithetic: bool, path: usize, step: usize) -> (r: i64)
    ensures
        r == spec_draw(seed, antithetic, path as nat, step as nat),
{
    if antithetic {
        let z = normal_draw(seed, (path / 2) as u64, step as u64);
        if path % 2 == 1 {
            -z
        } else {
            z
        }
    } else {
        normal_draw(seed, path as u64, step as u64)
    }
}

/// One Euler–Maruyama step.
pub fn euler_step<P: StochasticProcess>(
    model: &P,
    x: i64,
    t: i64,
    dt: i64,
    root_dt: i64,
    z: i64,
) -> (r: i64)
    ensures
        r == spec_euler_step(model, x, t, dt, root_dt, z),
{
    let moved = fixed_add(x, fixed_mul(model.drift(x, t), dt));
    let shocked = fixed_add(moved, fixed_mul(fixed_mul(model.diffusion(x, t), root_dt), z));
    match model.jump(x, t) {
        Some(j) => fixed_add(shocked, j),
        None => shocked,
    }
}

/// Generates path `path` alone: `steps + 1` points from `x0`, with time step
/// `dt` from `t0`. It equals that path of the whole ensemble, so paths can be
/// computed in any order or concurrently.
pub fn simulate_path<P: StochasticProcess>(
    model: &P,
    x0: i64,
    t0: i64,
    dt: i64,
    steps: usize,
    seed: u64,
    antithetic: bool,
    path: usize,
) -> (r: Vec<i64>)
    requires
        dt >= 0,
        steps < usize::MAX,
    ensures
        r@.len() == steps + 1,
        forall|n: int|
            0 <= n <= steps ==> r@[n] == spec_path_point(
                model,
                x0,
                t0,
                dt,
                seed,
                antithetic,
                path as nat,
                n as nat,
            ),
{
    let root_dt = fixed_sqrt(dt);
    let ghost draws = |i: nat| spec_draw(seed, antithetic, path as nat, i);
    let mut points: Vec<i64> = Vec::with_capacity(steps + 1);
    points.push(x0);
    let mut x: i64 = x0;
    let mut i: usize = 0;
    while i < steps
        invariant
            i <= steps < usize::MAX,
            dt >= 0,
            root_dt == spec_root_step(dt),
            points@.len() == i + 1,
            x == spec_state(model, x0, t0, dt, root_dt, draws, i as nat),
            draws == (|i: nat| spec_draw(seed, antithetic, path as nat, i)),
            forall|n: int|
                0 <= n <= i ==> points@[n] == spec_state(
                    model,
                    x0,
                    t0,
                    dt,
                    root_dt,
                    draws,
                    n as nat,
                ),
        decreases steps - i,
    {
        let t = grid_time(t0, dt, i);
        let z = draw(seed, antithetic, path, i);
        x = euler_step(model, x, t, dt, root_dt, z);
        points.push(x);
        i = i + 1;
    }
    points
}

/// `o` is the ensemble of `n_paths` paths of `steps` steps over `[t0, t1]`
/// from `x0`, with the draws that `seed` and `antithetic` give.
pub open spec fn is_simulation<P: StochasticProcess>(
    o: SimulationOutput,
    model: &P,
    x0: i64,
    t0: i64,
    t1: i64,
    steps: nat,
    n_paths: nat,
    antithetic: bool,
    seed: u64,
) -> bool {
    let dt = spec_time_step(t0, t1, steps);
    &&& o.wf()
    &&& o.times@.len() == steps + 1
    &&& forall|i: int| 0 <= i <= steps ==> o.times@[i] == spec_grid_time(t0, dt, i as nat)
    &&& o.paths@.len() == n_paths
    &&& forall|p: int| 0 <= p < n_paths ==> (#[trigger] o.paths@[p])@.len() == steps + 1
    &&& forall|p: int, n: int|
        0 <= p < n_paths && 0 <= n <= steps ==> (#[trigger] o.paths@[p]@[n]) == spec_path_point(
            model,
            x0,
            t0,
            dt,
            seed,
            antithetic,
            p as nat,
            n as nat,
        )
}

/// The error for an invalid configuration, checked in this order; `None`
/// when the configuration is valid.
pub open spec fn spec_config_error(t0: i64, t1: i64, steps: nat, n_paths: nat) -> Option<
    SimulationError,
> {
    if steps == 0 {
        Some(SimulationError::NoSteps)
    } else if n_paths == 0 {
        Some(SimulationError::NoPaths)
    } else if t1 <= t0 {
        Some(SimulationError::EmptyHorizon)
    } else {
        None
    }
}

/// The step length for `[t0, t1]` cut into `steps` parts.
pub fn time_step(t0: i64, t1: i64, steps: usize) -> (r: i64)
    requires
        t0 < t1,
        steps > 0,
    ensures
        r == spec_time_step(t0, t1, steps as nat),
        r >= 0,
{
    let span: u128 = (t1 as i128 - t0 as i128) as u128;
    let q: u128 = span / (steps as u128);
    assert(q <= span);
    saturate_wide(q as i128)
}

/// The time grid `t0, t0 + dt, ..., t0 + steps * dt`.
pub fn time_grid(t0: i64, dt: i64, steps: usize) -> (r: Vec<i64>)
    requires
        dt >= 0,
        steps < usize::MAX,
    ensures
        r@.len() == steps + 1,
        forall|i: int| 0 <= i <= steps ==> r@[i] == spec_grid_time(t0, dt, i as nat),
{
    let mut times: Vec<i64> = Vec::with_capacity(steps + 1);
    let mut i: usize = 0;
    while i <= steps
        invariant
            i <= steps + 1,
            steps < usize::MAX,
            dt >= 0,
            times@.len() == i,
            forall|k: int| 0 <= k < i ==> times@[k] == spec_grid_time(t0, dt, k as nat),
        decreases steps + 1 - i,
    {
        times.push(grid_time(t0, dt, i));
        i = i + 1;
    }
    times
}

/// Simulates `n_paths` paths of `model` from `x0` over `[t0, t1]` in `steps`
/// equal steps. Path `p` draws from stream `p` of `seed`; in antithetic mode
/// paths `2k` and `2k + 1` share stream `k` with opposite signs. An invalid
/// configuration is refused before any path is generated.
pub fn simulate<P: StochasticProcess>(
    model: &P,
    x0: i64,
    t0: i64,
    t1: i64,
    steps: usize,
    n_paths: usize,
    antithetic: bool,
    seed: u64,
) -> (r: Result<SimulationOutput, SimulationError>)
    requires
        steps < usize::MAX,
    ensures
        match r {
            Ok(o) => spec_config_error(t0, t1, steps as nat, n_paths as nat) is None && is_simulation(
                o,
                model,
                x0,
                t0,
                t1,
                steps as nat,
                n_paths as nat,
                antithetic,
                seed,
            ),
            Err(e) => spec_config_error(t0, t1, steps as nat, n_paths as nat) == Some(e),
        },
{
    if steps == 0 {
        return Err(SimulationError::NoSteps);
    }
    if n_paths == 0 {
        return Err(SimulationError::NoPaths);
    }
    if t1 <= t0 {
        return Err(SimulationError::EmptyHorizon);
    }
    let dt = time_step(t0, t1, steps);
    let times = time_grid(t0, dt, steps);
    let mut paths: Vec<Vec<i64>> = Vec::with_capacity(n_paths);
    let mut p: usize = 0;
    while p < n_paths
        invariant
            p <= n_paths,
            steps < usize::MAX,
            dt == spec_time_step(t0, t1, steps as nat),
            dt >= 0,
            paths@.len() == p,
            forall|q: int| 0 <= q < p ==> (#[trigger] paths@[q])@.len() == steps + 1,
            forall|q: int, n: int|
                0 <= q < p && 0 <= n <= steps ==> (#[trigger] paths@[q]@[n]) == spec_path_point(
                    model,
                    x0,
                    t0,
                    dt,
                    seed,
                    antithetic,
                    q as nat,
                    n as nat,
                ),
        decreases n_paths - p,
    {
        let path = simulate_path(model, x0, t0, dt, steps, seed, antithetic, p);
        paths.push(path);
        p = p + 1;
    }
    let o = SimulationOutput { times, paths };
    Ok(o)
}

} // verus!
