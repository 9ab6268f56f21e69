//! Pure predicates over closed time intervals: containment of a subgoal's
//! start in an outer bound, and intersection of two bounds.

use vstd::prelude::*;

verus! {

/// True iff `inner_start` falls within the closed interval
/// `[outer_start, outer_end]`.
///
/// Deliberately asymmetric: only the inner interval's start is checked
/// against the outer bound; the inner end is not independently validated.
pub open spec fn within_bounds(
    outer_start: u128,
    outer_end: u128,
    inner_start: u128,
    inner_end: u128,
) -> bool {
    outer_start <= inner_start <= outer_end
}

/// True iff the closed intervals `[bound1_start, bound1_end]` and
/// `[bound2_start, bound2_end]` overlap: an endpoint of the first lies
/// inside the second, or the first contains the second.
pub open spec fn bounds_intersect(
    bound1_start: u128,
    bound1_end: u128,
    bound2_start: u128,
    bound2_end: u128,
) -> bool {
    ||| bound2_start <= bound1_start <= bound2_end
    ||| bound2_start <= bound1_end <= bound2_end
    ||| (bound1_end >= bound2_end && bound1_start <= bound2_start)
}

/// Decides `within_bounds`.
pub fn is_within_bounds(
    outer_start: u128,
    outer_end: u128,
    inner_start: u128,
    inner_end: u128,
) -> (r: bool)
    ensures
        r == within_bounds(outer_start, outer_end, inner_start, inner_end),
{
    inner_start >= outer_start && inner_start <= outer_end
}

/// Decides `bounds_intersect`.
pub fn do_bounds_intersect(
    bound1_start: u128,
    bound1_end: u128,
    bound2_start: u128,
    bound2_end: u128,
) -> (r: bool)
    ensures
        r == bounds_intersect(bound1_start, bound1_end, bound2_start, bound2_end),
{
    (bound2_start <= bound1_start && bound1_start <= bound2_end)
        || (bound2_start <= bound1_end && bound1_end <= bound2_end)
        || (bound1_end >= bound2_end && bound1_start <= bound2_start)
}

} // verus!
