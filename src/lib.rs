//! Monte Carlo simulation of stochastic differential equations
//! `dX = drift(X, t) dt + diffusion(X, t) dW + jump(X, t)` by the
//! Euler–Maruyama scheme, in fixed-point arithmetic.

pub mod fixed;
pub mod random;
pub mod time_dependent;
pub mod process;
pub mod extended_vasicek;
pub mod engine;
pub mod output;
pub mod lemmas;
