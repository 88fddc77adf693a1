//! What every frequency controller offers to the channel controller.

use vstd::prelude::*;
use crate::fixed_point::MAX_WHOLE;

verus! {

/// The sum of the buffer levels.
pub open spec fn levels_total(levels: Seq<usize>) -> int
    decreases levels.len(),
{
    if levels.len() == 0 {
        0
    } else {
        levels_total(levels.drop_last()) + levels.last()
    }
}

/// The occupancy aimed at: every live link half full.
pub open spec fn half_full(degree: int, capacity: int) -> int {
    (degree * capacity) / 2
}

/// A sum of levels that are each at most `bound` is at most their number
/// times `bound`.
pub proof fn lemma_levels_total_bound(levels: Seq<usize>, bound: int)
    requires
        forall|i: int| 0 <= i < levels.len() ==> levels[i] <= bound,
    ensures
        0 <= levels_total(levels) <= levels.len() * bound,
    decreases levels.len(),
{
    if levels.len() > 0 {
        lemma_levels_total_bound(levels.drop_last(), bound);
        assert(levels.drop_last().len() * bound + bound == levels.len() * bound)
            by (nonlinear_arith)
            requires
                levels.drop_last().len() + 1 == levels.len(),
        ;
    } else {
        assert(levels.len() * bound == 0) by (nonlinear_arith)
            requires
                levels.len() == 0,
        ;
    }
}

/// Adds up the buffer levels.
pub fn total_level(buffer_levels: &[usize]) -> (total: usize)
    requires
        levels_total(buffer_levels@) <= usize::MAX,
    ensures
        total == levels_total(buffer_levels@),
{
    let mut total: usize = 0;
    let mut i: usize = 0;
    while i < buffer_levels.len()
        invariant
            i <= buffer_levels@.len(),
            total == levels_total(buffer_levels@.take(i as int)),
            levels_total(buffer_levels@) <= usize::MAX,
        decreases buffer_levels@.len() - i,
    {
        proof {
            let next = buffer_levels@.take(i + 1);
            assert(next.drop_last() =~= buffer_levels@.take(i as int));
            lemma_levels_total_prefix(buffer_levels@, i + 1);
        }
        total = total + buffer_levels[i];
        i = i + 1;
    }
    proof {
        assert(buffer_levels@.take(i as int) =~= buffer_levels@);
    }
    total
}

/// The sum of a prefix is at most the sum of the whole.
pub proof fn lemma_levels_total_prefix(levels: Seq<usize>, n: int)
    requires
        0 <= n <= levels.len(),
    ensures
        0 <= levels_total(levels.take(n)) <= levels_total(levels),
    decreases levels.len() - n,
{
    if n == levels.len() {
        assert(levels.take(n) =~= levels);
        lemma_levels_total_bound(levels, usize::MAX as int);
    } else {
        lemma_levels_total_prefix(levels, n + 1);
        assert(levels.take(n + 1).drop_last() =~= levels.take(n));
        lemma_levels_total_bound(levels.take(n), usize::MAX as int);
    }
}

/// A frequency controller for elastic buffers of capacity `B`. It keeps the
/// sum of the buffer levels near half of what the live links can hold, with
/// the frequency as its only actuator.
pub trait FrequencyController<const B: usize> {
    type Error;

    type Debug;

    /// The number of neighbours that the controller assumes.
    spec fn degree(&self) -> nat;

    /// Runs one step of frequency control on the current buffer levels.
    /// The target and the sum of the levels must be whole numbers that the
    /// fixed-point format holds, and there is a level for each neighbour.
    fn run(&mut self, buffer_levels: &[usize]) -> (r: Result<(), Self::Error>)
        requires
            old(self).degree() <= buffer_levels@.len(),
            half_full(old(self).degree() as int, B as int) <= MAX_WHOLE,
            levels_total(buffer_levels@) <= MAX_WHOLE,
        ensures
            final(self).degree() == old(self).degree(),
    ;

    /// Changes the number of neighbours that the controller assumes.
    fn set_degree(&mut self, new_degree: usize)
        ensures
            final(self).degree() == new_degree,
    ;

    /// The telemetry that the controller holds.
    spec fn telemetry(&self) -> Self::Debug;

    /// The controller's own telemetry.
    fn debug(&self) -> (d: Self::Debug)
        ensures
            d == self.telemetry(),
    ;
}

} // verus!
