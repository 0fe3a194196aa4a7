//! Properties of simulated ensembles, proved from the engine's specification.

use vstd::prelude::*;
use crate::engine::{
    is_simulation, spec_draw, spec_euler_step, spec_grid_time, spec_path_point, spec_root_step,
    spec_state, spec_time_step,
};
use crate::fixed::{SCALE, spec_fixed_add, spec_fixed_mul};
use crate::process::StochasticProcess;
use crate::random::{UNIFORMS_PER_NORMAL, lemma_uniform_sum_bounds, spec_normal};

verus! {

/// The explicit Euler scheme for the ordinary differential equation
/// `dx/dt = drift(x, t)`: the state after `n` steps of length `dt` from `x0`.
pub open spec fn spec_ode_state<P: StochasticProcess>(
    model: &P,
    x0: i64,
    t0: i64,
    dt: i64,
    n: nat,
) -> i64
    decreases n,
{
    if n == 0 {
        x0
    } else {
        let x = spec_ode_state(model, x0, t0, dt, (n - 1) as nat);
        spec_fixed_add(x, spec_fixed_mul(model.spec_drift(x, spec_grid_time(t0, dt, (n - 1) as nat)), dt))
    }
}

/// Every simulated ensemble has `n_paths` paths of `steps + 1` points, and
/// every path starts exactly at `x0`.
pub proof fn lemma_simulation_shape<P: StochasticProcess>(
    o: crate::output::SimulationOutput,
    model: &P,
    x0: i64,
    t0: i64,
    t1: i64,
    steps: nat,
    n_paths: nat,
    antithetic: bool,
    seed: u64,
)
    requires
        is_simulation(o, model, x0, t0, t1, steps, n_paths, antithetic, seed),
    ensures
        o.paths@.len() == n_paths,
        forall|p: int| 0 <= p < n_paths ==> (#[trigger] o.paths@[p])@.len() == steps + 1,
        forall|p: int| 0 <= p < n_paths ==> (#[trigger] o.paths@[p])@[0] == x0,
{
    assert forall|p: int| 0 <= p < n_paths implies (#[trigger] o.paths@[p])@[0] == x0 by {
        assert(o.paths@[p]@[0] == spec_path_point(
            model,
            x0,
            t0,
            spec_time_step(t0, t1, steps),
            seed,
            antithetic,
            p as nat,
            0,
        ));
    }
}

/// A path's state after `n` steps depends on its first `n` draws only.
pub proof fn lemma_state_depends_on_own_draws<P: StochasticProcess>(
    model: &P,
    x0: i64,
    t0: i64,
    dt: i64,
    root_dt: i64,
    draws1: spec_fn(nat) -> i64,
    draws2: spec_fn(nat) -> i64,
    n: nat,
)
    requires
        forall|i: nat| i < n ==> #[trigger] draws1(i) == draws2(i),
    ensures
        spec_state(model, x0, t0, dt, root_dt, draws1, n) == spec_state(
            model,
            x0,
            t0,
            dt,
            root_dt,
            draws2,
            n,
        ),
    decreases n,
{
    if n > 0 {
        lemma_state_depends_on_own_draws(model, x0, t0, dt, root_dt, draws1, draws2, (n - 1) as nat);
        assert(draws1((n - 1) as nat) == draws2((n - 1) as nat));
    }
}

/// The ensemble is determined by its inputs: two outputs for the same model,
/// configuration, seed and mode hold the same grid and the same paths,
/// whatever order the paths were computed in.
pub proof fn lemma_simulation_deterministic<P: StochasticProcess>(
    o1: crate::output::SimulationOutput,
    o2: crate::output::SimulationOutput,
    model: &P,
    x0: i64,
    t0: i64,
    t1: i64,
    steps: nat,
    n_paths: nat,
    antithetic: bool,
    seed: u64,
)
    requires
        is_simulation(o1, model, x0, t0, t1, steps, n_paths, antithetic, seed),
        is_simulation(o2, model, x0, t0, t1, steps, n_paths, antithetic, seed),
    ensures
        o1.times@ == o2.times@,
        o1.paths@.len() == o2.paths@.len(),
        forall|p: int| 0 <= p < n_paths ==> (#[trigger] o1.paths@[p])@ == o2.paths@[p]@,
{
    assert(o1.times@ =~= o2.times@);
    assert forall|p: int| 0 <= p < n_paths implies (#[trigger] o1.paths@[p])@ == o2.paths@[p]@ by {
        assert forall|n: int| 0 <= n < o1.paths@[p]@.len() implies o1.paths@[p]@[n]
            == o2.paths@[p]@[n] by {
            assert(o1.paths@[p]@[n] == o2.paths@[p]@[n]);
        }
        assert(o1.paths@[p]@ =~= o2.paths@[p]@);
    }
}

/// With zero diffusion the draws do not matter.
proof fn lemma_zero_diffusion_ignores_draws<P: StochasticProcess>(
    model: &P,
    x0: i64,
    t0: i64,
    dt: i64,
    root_dt: i64,
    draws1: spec_fn(nat) -> i64,
    draws2: spec_fn(nat) -> i64,
    n: nat,
)
    requires
        forall|x: i64, t: i64| #[trigger] model.spec_diffusion(x, t) == 0,
    ensures
        spec_state(model, x0, t0, dt, root_dt, draws1, n) == spec_state(
            model,
            x0,
            t0,
            dt,
            root_dt,
            draws2,
            n,
        ),
    decreases n,
{
    if n > 0 {
        let i = (n - 1) as nat;
        lemma_zero_diffusion_ignores_draws(model, x0, t0, dt, root_dt, draws1, draws2, i);
        let x = spec_state(model, x0, t0, dt, root_dt, draws1, i);
        let t = spec_grid_time(t0, dt, i);
        lemma_zero_diffusion_step(model, x, t, dt, root_dt, draws1(i));
        lemma_zero_diffusion_step(model, x, t, dt, root_dt, draws2(i));
    }
}

proof fn lemma_zero_diffusion_step<P: StochasticProcess>(
    model: &P,
    x: i64,
    t: i64,
    dt: i64,
    root_dt: i64,
    z: i64,
)
    requires
        model.spec_diffusion(x, t) == 0,
    ensures
        spec_euler_step(model, x, t, dt, root_dt, z) == match model.spec_jump(x, t) {
            Some(j) => spec_fixed_add(spec_fixed_add(x, spec_fixed_mul(model.spec_drift(x, t), dt)), j),
            None => spec_fixed_add(x, spec_fixed_mul(model.spec_drift(x, t), dt)),
        },
{
    assert(spec_fixed_mul(0, root_dt) == 0);
    assert(spec_fixed_mul(0, z) == 0);
}

/// With zero diffusion and no jumps a path is the explicit Euler scheme for
/// `dx/dt = drift(x, t)`.
proof fn lemma_zero_diffusion_state<P: StochasticProcess>(
    model: &P,
    x0: i64,
    t0: i64,
    dt: i64,
    root_dt: i64,
    draws: spec_fn(nat) -> i64,
    n: nat,
)
    requires
        forall|x: i64, t: i64| #[trigger] model.spec_diffusion(x, t) == 0,
        forall|x: i64, t: i64| #[trigger] model.spec_jump(x, t) is None,
    ensures
        spec_state(model, x0, t0, dt, root_dt, draws, n) == spec_ode_state(model, x0, t0, dt, n),
    decreases n,
{
    if n > 0 {
        let i = (n - 1) as nat;
        lemma_zero_diffusion_state(model, x0, t0, dt, root_dt, draws, i);
        let x = spec_state(model, x0, t0, dt, root_dt, draws, i);
        let t = spec_grid_time(t0, dt, i);
        assert(model.spec_jump(x, t) is None);
        lemma_zero_diffusion_step(model, x, t, dt, root_dt, draws(i));
    }
}

/// With zero diffusion all paths of an ensemble are identical; if the model
/// also has no jumps, each is the explicit Euler scheme for
/// `dx/dt = drift(x, t)` on the simulation's grid.
pub proof fn lemma_zero_diffusion_paths<P: StochasticProcess>(
    o: crate::output::SimulationOutput,
    model: &P,
    x0: i64,
    t0: i64,
    t1: i64,
    steps: nat,
    n_paths: nat,
    antithetic: bool,
    seed: u64,
)
    requires
        is_simulation(o, model, x0, t0, t1, steps, n_paths, antithetic, seed),
        forall|x: i64, t: i64| #[trigger] model.spec_diffusion(x, t) == 0,
    ensures
        forall|p: int, q: int|
            0 <= p < n_paths && 0 <= q < n_paths ==> (#[trigger] o.paths@[p])@ == (
            #[trigger] o.paths@[q])@,
        (forall|x: i64, t: i64| #[trigger] model.spec_jump(x, t) is None) ==> forall|
            p: int,
            n: int,
        |
            0 <= p < n_paths && 0 <= n <= steps ==> (#[trigger] o.paths@[p]@[n]) == spec_ode_state(
                model,
                x0,
                t0,
                spec_time_step(t0, t1, steps),
                n as nat,
            ),
{
    let dt = spec_time_step(t0, t1, steps);
    let root_dt = spec_root_step(dt);
    assert forall|p: int, q: int|
        0 <= p < n_paths && 0 <= q < n_paths implies (#[trigger] o.paths@[p])@ == (
        #[trigger] o.paths@[q])@ by {
        assert forall|n: int| 0 <= n < o.paths@[p]@.len() implies o.paths@[p]@[n]
            == o.paths@[q]@[n] by {
            lemma_zero_diffusion_ignores_draws(
                model,
                x0,
                t0,
                dt,
                root_dt,
                |i: nat| spec_draw(seed, antithetic, p as nat, i),
                |i: nat| spec_draw(seed, antithetic, q as nat, i),
                n as nat,
            );
            assert(o.paths@[p]@[n] == spec_path_point(model, x0, t0, dt, seed, antithetic, p as nat, n as nat));
            assert(o.paths@[q]@[n] == spec_path_point(model, x0, t0, dt, seed, antithetic, q as nat, n as nat));
        }
        assert(o.paths@[p]@ =~= o.paths@[q]@);
    }
    if forall|x: i64, t: i64| #[trigger] model.spec_jump(x, t) is None {
        assert forall|p: int, n: int| 0 <= p < n_paths && 0 <= n <= steps implies (
        #[trigger] o.paths@[p]@[n]) == spec_ode_state(model, x0, t0, dt, n as nat) by {
            lemma_zero_diffusion_state(
                model,
                x0,
                t0,
                dt,
                root_dt,
                |i: nat| spec_draw(seed, antithetic, p as nat, i),
                n as nat,
            );
        }
    }
}

/// Normal draws lie in `[-6, 6]`.
pub proof fn lemma_normal_bounds(seed: u64, stream: u64, step: u64)
    ensures
        -6 * SCALE <= spec_normal(seed, stream, step) <= 6 * SCALE,
{
    lemma_uniform_sum_bounds(seed, stream, step, UNIFORMS_PER_NORMAL as nat);
}

/// In antithetic mode every even path `2k` has a partner `2k + 1` whose draw
/// at every step is the exact negation of its own.
pub proof fn lemma_antithetic_pairs(seed: u64, k: nat, step: nat)
    requires
        2 * k + 1 <= u64::MAX,
        step <= u64::MAX,
    ensures
        spec_draw(seed, true, 2 * k + 1, step) == -spec_draw(seed, true, 2 * k, step),
{
    assert((2 * k + 1) / 2 == k && (2 * k + 1) % 2 == 1);
    assert((2 * k) / 2 == k && (2 * k) % 2 == 0);
    lemma_normal_bounds(seed, k as u64, step as u64);
}

} // verus!
