//! Bindings to the external space library that describes state and action
//! spaces.  The library's concrete geometry stays external; this crate
//! only relies on the capability that a space describes its values and
//! their count.

use vstd::prelude::*;

verus! {

#[verifier::external_type_specification]
#[verifier::external_body]
#[verifier::reject_recursive_types(T)]
pub struct ExInterval<T>(spaces::Interval<T>);

/// The lower and upper bounds an interval space was constructed with.
pub uninterp spec fn interval_bounds(interval: spaces::Interval<i64>) -> (
    Option<i64>,
    Option<i64>,
);

/// Relies on `spaces::Interval::new`: the interval stores exactly the
/// given bounds.
#[verifier::external_body]
pub(crate) fn interval_new(lb: Option<i64>, ub: Option<i64>) -> (r: spaces::Interval<i64>)
    ensures
        interval_bounds(r) == (lb, ub),
{
    spaces::Interval::new(lb, ub)
}

/// Relies on `<Range<usize> as spaces::Space>::card`: the cardinality of a
/// discrete range space is the number of values in the range.
#[verifier::external_body]
pub(crate) fn range_card(space: &std::ops::Range<usize>) -> (n: usize)
    ensures
        n == if space.start <= space.end {
            space.end - space.start
        } else {
            0
        },
{
    match spaces::Space::card(space) {
        spaces::Card::Finite(n) => n,
        spaces::Card::Infinite => 0,
    }
}

} // verus!
