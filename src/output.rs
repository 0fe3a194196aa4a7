//! The result of a simulation: a path ensemble on one shared time grid.

use vstd::prelude::*;

verus! {

/// Paths sampled on a shared time grid. `times[i]` is grid time `i`, and
/// `paths[p][i]` is the state of path `p` at that time.
pub struct SimulationOutput {
    pub times: Vec<i64>,
    pub paths: Vec<Vec<i64>>,
}

impl SimulationOutput {
    /// Every path has one point per grid time, and the grid is not empty.
    pub open spec fn wf(&self) -> bool {
        &&& self.times@.len() >= 1
        &&& forall|p: int|
            0 <= p < self.paths@.len() ==> #[trigger] self.paths@[p]@.len() == self.times@.len()
    }

    /// Number of paths.
    pub fn path_count(&self) -> (r: usize)
        ensures
            r == self.paths@.len(),
    {
        self.paths.len()
    }

    /// Number of points in each path: the number of steps plus one.
    pub fn path_len(&self) -> (r: usize)
        ensures
            r == self.times@.len(),
    {
        self.times.len()
    }

    /// Point `i` of path `p`.
    pub fn point(&self, p: usize, i: usize) -> (r: i64)
        requires
            self.wf(),
            p < self.paths@.len(),
            i < self.times@.len(),
        ensures
            r == self.paths@[p as int]@[i as int],
    {
        self.paths[p][i]
    }

    /// The last point of every path, in path order.
    pub fn terminal_values(&self) -> (r: Vec<i64>)
        requires
            self.wf(),
        ensures
            r@.len() == self.paths@.len(),
            forall|p: int|
                0 <= p < r@.len() ==> r@[p] == self.paths@[p]@[self.times@.len() - 1],
    {
        let last: usize = self.times.len() - 1;
        let mut r: Vec<i64> = Vec::with_capacity(self.paths.len());
        let mut p: usize = 0;
        while p < self.paths.len()
            invariant
                self.wf(),
                last == self.times@.len() - 1,
                p <= self.paths@.len(),
                r@.len() == p,
                forall|q: int| 0 <= q < p ==> r@[q] == self.paths@[q]@[last as int],
            decreases self.paths@.len() - p,
        {
            assert(self.paths@[p as int]@.len() == self.times@.len());
            r.push(self.paths[p][last]);
            p = p + 1;
        }
        r
    }
}

} // verus!
