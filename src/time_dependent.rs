//! Model parameters that may vary with calendar time.

use vstd::prelude::*;
use crate::fixed::{fixed_add, fixed_mul, spec_fixed_add, spec_fixed_mul};

verus! {

/// A fixed-point coefficient as a function of fixed-point time: a constant,
/// a straight line in `t`, or a step function given by knots.
pub enum TimeDependent {
    /// The same value at every time.
    Constant(i64),
    /// `at_zero + slope * t`.
    Linear { at_zero: i64, slope: i64 },
    /// Knots `(time, value)`: the value of the last knot whose time is at
    /// most `t`; before every knot, the first knot's value; zero without knots.
    Schedule(Vec<(i64, i64)>),
}

/// The value of a step function at `t`, looking at the first `n` knots.
pub open spec fn spec_schedule_at(knots: Seq<(i64, i64)>, t: i64, n: nat) -> i64
    decreases n,
{
    if n == 0 {
        if knots.len() == 0 {
            0
        } else {
            knots[0].1
        }
    } else if knots[n - 1].0 <= t {
        knots[n - 1].1
    } else {
        spec_schedule_at(knots, t, (n - 1) as nat)
    }
}

impl TimeDependent {
    /// The coefficient's value at time `t`.
    pub open spec fn spec_at(&self, t: i64) -> i64 {
        match *self {
            TimeDependent::Constant(v) => v,
            TimeDependent::Linear { at_zero, slope } => spec_fixed_add(
                at_zero,
                spec_fixed_mul(slope, t),
            ),
            TimeDependent::Schedule(knots) => spec_schedule_at(knots@, t, knots@.len()),
        }
    }

    /// A coefficient that ignores time.
    pub fn constant(value: i64) -> (r: TimeDependent)
        ensures
            forall|t: i64| r.spec_at(t) == value,
    {
        TimeDependent::Constant(value)
    }

    /// The coefficient `at_zero + slope * t`.
    pub fn linear(at_zero: i64, slope: i64) -> (r: TimeDependent)
        ensures
            forall|t: i64| r.spec_at(t) == spec_fixed_add(at_zero, spec_fixed_mul(slope, t)),
    {
        TimeDependent::Linear { at_zero, slope }
    }

    /// A step function through `knots`.
    pub fn schedule(knots: Vec<(i64, i64)>) -> (r: TimeDependent)
        ensures
            forall|t: i64| r.spec_at(t) == spec_schedule_at(knots@, t, knots@.len()),
    {
        TimeDependent::Schedule(knots)
    }

    /// Evaluates the coefficient at time `t`.
    pub fn at(&self, t: i64) -> (r: i64)
        ensures
            r == self.spec_at(t),
    {
        match self {
            TimeDependent::Constant(v) => *v,
            TimeDependent::Linear { at_zero, slope } => fixed_add(*at_zero, fixed_mul(*slope, t)),
            TimeDependent::Schedule(knots) => schedule_at(knots, t),
        }
    }
}

/// The value of the step function through `knots` at `t`.
pub fn schedule_at(knots: &Vec<(i64, i64)>, t: i64) -> (r: i64)
    ensures
        r == spec_schedule_at(knots@, t, knots@.len()),
{
    let mut i: usize = knots.len();
    while i > 0
        invariant
            i <= knots@.len(),
            spec_schedule_at(knots@, t, knots@.len()) == spec_schedule_at(knots@, t, i as nat),
        decreases i,
    {
        if knots[i - 1].0 <= t {
            return knots[i - 1].1;
        }
        i = i - 1;
    }
    if knots.len() == 0 {
        0
    } else {
        knots[0].1
    }
}

} // verus!
