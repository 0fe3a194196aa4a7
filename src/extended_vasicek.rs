//! The extended Vasicek (Hull–White) short-rate model.

use vstd::prelude::*;
use crate::fixed::{fixed_mul, fixed_sub, spec_fixed_mul, spec_fixed_sub};
use crate::process::StochasticProcess;
use crate::time_dependent::TimeDependent;

verus! {

/// `dX = (theta(t) - alpha(t) X) dt + sigma(t) dW`.
pub struct ExtendedVasicek {
    /// Mean-reversion speed `alpha(t)`.
    pub alpha: TimeDependent,
    /// Volatility `sigma(t)`, non-negative.
    pub sigma: TimeDependent,
    /// Mean-reversion level times speed, `theta(t)`.
    pub theta: TimeDependent,
}

impl ExtendedVasicek {
    /// A model with the given coefficients.
    pub fn new(alpha: TimeDependent, sigma: TimeDependent, theta: TimeDependent) -> (r: Self)
        ensures
            r.alpha == alpha,
            r.sigma == sigma,
            r.theta == theta,
    {
        ExtendedVasicek { alpha, sigma, theta }
    }
}

impl StochasticProcess for ExtendedVasicek {
    open spec fn spec_drift(&self, x: i64, t: i64) -> i64 {
        spec_fixed_sub(self.theta.spec_at(t), spec_fixed_mul(self.alpha.spec_at(t), x))
    }

    open spec fn spec_diffusion(&self, x: i64, t: i64) -> i64 {
        self.sigma.spec_at(t)
    }

    open spec fn spec_jump(&self, x: i64, t: i64) -> Option<i64> {
        None
    }

    fn drift(&self, x: i64, t: i64) -> (r: i64) {
        fixed_sub(self.theta.at(t), fixed_mul(self.alpha.at(t), x))
    }

    fn diffusion(&self, x: i64, t: i64) -> (r: i64) {
        self.sigma.at(t)
    }

    fn jump(&self, x: i64, t: i64) -> (r: Option<i64>) {
        None
    }
}

} // verus!
