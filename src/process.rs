//! The capability set that every process model offers the simulator.

use vstd::prelude::*;
use crate::engine::{SimulationError, is_simulation, simulate, spec_config_error};
use crate::output::SimulationOutput;

verus! {

/// Seed of the draws behind [`StochasticProcess::euler_maruyama`].
pub const DEFAULT_SEED: u64 = 0x5eed_0f_d1ff_u64;

/// A process `dX = drift(X, t) dt + diffusion(X, t) dW + jump(X, t)`, with
/// states and times as fixed-point values. Each evaluator is a pure function
/// of its arguments, given by the matching spec function.
pub trait StochasticProcess {
    spec fn spec_drift(&self, x: i64, t: i64) -> i64;

    spec fn spec_diffusion(&self, x: i64, t: i64) -> i64;

    /// `None` when the model has no jump at `(x, t)`.
    spec fn spec_jump(&self, x: i64, t: i64) -> Option<i64>;

    /// The deterministic rate of change at state `x` and time `t`.
    fn drift(&self, x: i64, t: i64) -> (r: i64)
        ensures
            r == self.spec_drift(x, t),
    ;

    /// The volatility at state `x` and time `t`.
    fn diffusion(&self, x: i64, t: i64) -> (r: i64)
        ensures
            r == self.spec_diffusion(x, t),
    ;

    /// The jump added at state `x` and time `t`, if the model has one.
    fn jump(&self, x: i64, t: i64) -> (r: Option<i64>)
        ensures
            r == self.spec_jump(x, t),
    ;
}

/// Euler–Maruyama simulation, offered by every process model.
pub trait EulerMaruyama: StochasticProcess + Sized {
    /// Simulates `n_paths` paths from `x0` over `[t0, t1]` in `steps` equal
    /// steps, with the draws of [`DEFAULT_SEED`] and no antithetic pairing.
    /// The paths are computed one after another here. Every path is a
    /// function of its own draws alone (see `simulate_path`), so a caller
    /// that generates them concurrently gets the same output, and the result
    /// does not depend on `parallel`.
    fn euler_maruyama(
        &self,
        x0: i64,
        t0: i64,
        t1: i64,
        steps: usize,
        n_paths: usize,
        parallel: bool,
    ) -> (r: Result<SimulationOutput, SimulationError>)
        requires
            steps < usize::MAX,
        ensures
            match r {
                Ok(o) => spec_config_error(t0, t1, steps as nat, n_paths as nat) is None
                    && is_simulation(
                    o,
                    self,
                    x0,
                    t0,
                    t1,
                    steps as nat,
                    n_paths as nat,
                    false,
                    DEFAULT_SEED,
                ),
                Err(e) => spec_config_error(t0, t1, steps as nat, n_paths as nat) == Some(e),
            },
    ;
}

impl<P: StochasticProcess> EulerMaruyama for P {
    fn euler_maruyama(
        &self,
        x0: i64,
        t0: i64,
        t1: i64,
        steps: usize,
        n_paths: usize,
        parallel: bool,
    ) -> (r: Result<SimulationOutput, SimulationError>) {
        simulate(self, x0, t0, t1, steps, n_paths, false, DEFAULT_SEED)
    }
}

} // verus!
