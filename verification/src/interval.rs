//! Closed ranges of ray parameters.

use crate::scalar::{
    lemma_rank_bounds, lemma_rank_orders_as_values, lemma_ranks_of_constants, Scalar,
};
use vstd::prelude::*;

verus! {

/// The range `[min, max]` of a ray parameter.
#[derive(Clone, Copy, Debug)]
pub struct Interval {
    pub min: Scalar,
    pub max: Scalar,
}

impl Interval {
    /// `min <= x <= max`
    pub open spec fn contains_spec(&self, x: Scalar) -> bool {
        x.ge_spec(self.min) && x.le_spec(self.max)
    }

    /// `x` lies below both bounds or above both bounds.
    pub open spec fn surrounds_spec(&self, x: Scalar) -> bool {
        (x.lt_spec(self.min) && x.lt_spec(self.max)) || (x.gt_spec(self.min) && x.gt_spec(
            self.max,
        ))
    }

    /// `x`, moved to the nearer bound where it lies outside.
    pub open spec fn clamp_spec(&self, x: Scalar) -> Scalar {
        if x.lt_spec(self.min) {
            self.min
        } else if x.gt_spec(self.max) {
            self.max
        } else {
            x
        }
    }

    /// The interval with the upper bound moved to `max`.
    pub open spec fn ending_at(self, max: Scalar) -> Interval {
        Interval { min: self.min, max }
    }

    /// Neither bound is NaN, and `min` is not above `max`.
    pub open spec fn ordered(&self) -> bool {
        self.min.le_spec(self.max)
    }

    #[verifier::allow_in_spec]
    pub fn new(min: Scalar, max: Scalar) -> Interval
        returns
            (Interval { min, max }),
    {
        Interval { min, max }
    }

    /// The interval from positive to negative infinity, which holds nothing.
    #[verifier::allow_in_spec]
    pub fn empty() -> Interval
        returns
            (Interval { min: Scalar::infinity(), max: Scalar::neg_infinity() }),
    {
        Interval { min: Scalar::infinity(), max: Scalar::neg_infinity() }
    }

    /// The interval from negative to positive infinity, which holds every
    /// number.
    #[verifier::allow_in_spec]
    pub fn universe() -> Interval
        returns
            (Interval { min: Scalar::neg_infinity(), max: Scalar::infinity() }),
    {
        Interval { min: Scalar::neg_infinity(), max: Scalar::infinity() }
    }

    /// Whether `x` lies within the bounds, the bounds included.
    #[verifier::when_used_as_spec(contains_spec)]
    pub fn contains(&self, x: Scalar) -> (inside: bool)
        ensures
            inside == self.contains_spec(x),
    {
        x.ge(self.min) && x.le(self.max)
    }

    /// Whether `x` lies strictly outside the bounds: below both or above
    /// both. A parameter is rejected by a window that surrounds it.
    #[verifier::when_used_as_spec(surrounds_spec)]
    pub fn surrounds(&self, x: Scalar) -> (outside: bool)
        ensures
            outside == self.surrounds_spec(x),
    {
        (x.lt(self.min) && x.lt(self.max)) || (x.gt(self.min) && x.gt(self.max))
    }

    /// `x` projected into the bounds.
    #[verifier::when_used_as_spec(clamp_spec)]
    pub fn clamp(&self, x: Scalar) -> (clamped: Scalar)
        ensures
            clamped == self.clamp_spec(x),
    {
        if x.lt(self.min) {
            self.min
        } else if x.gt(self.max) {
            self.max
        } else {
            x
        }
    }
}

/// On an ordered interval, a number is surrounded exactly when it is not
/// contained.
pub proof fn lemma_surrounds_is_not_contains(t: Interval, x: Scalar)
    requires
        t.ordered(),
        !x.is_nan_spec(),
    ensures
        t.surrounds_spec(x) == !t.contains_spec(x),
{
}

/// Nothing is both contained and surrounded, whatever the bounds.
pub proof fn lemma_contained_is_not_surrounded(t: Interval, x: Scalar)
    requires
        t.contains_spec(x),
    ensures
        !t.surrounds_spec(x),
{
}

/// NaN is neither contained nor surrounded, and clamping leaves it alone.
pub proof fn lemma_nan_is_outside_the_order(t: Interval, x: Scalar)
    requires
        x.is_nan_spec(),
    ensures
        !t.contains_spec(x),
        !t.surrounds_spec(x),
        t.clamp_spec(x) == x,
{
}

/// On an ordered interval, clamping a number lands inside, moves nothing
/// that is inside already, and is idempotent.
pub proof fn lemma_clamp_projects(t: Interval, x: Scalar)
    requires
        t.ordered(),
        !x.is_nan_spec(),
    ensures
        t.contains_spec(t.clamp_spec(x)),
        t.contains_spec(x) ==> t.clamp_spec(x) == x,
        t.clamp_spec(t.clamp_spec(x)) == t.clamp_spec(x),
{
}

/// The empty interval contains nothing; the universe contains every number.
pub proof fn lemma_empty_and_universe(x: Scalar)
    ensures
        !Interval::empty().contains_spec(x),
        Interval::universe().contains_spec(x) == !x.is_nan_spec(),
        !Interval::universe().surrounds_spec(x),
{
    lemma_rank_bounds(x);
    lemma_ranks_of_constants();
    lemma_rank_orders_as_values(x, Scalar::infinity());
    lemma_rank_orders_as_values(x, Scalar::neg_infinity());
    lemma_rank_orders_as_values(Scalar::neg_infinity(), Scalar::infinity());
}

} // verus!
