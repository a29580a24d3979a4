//! Clamp built-ins.
use vstd::prelude::*;
use vstd::std_specs::cmp::PartialOrdIs;
use vstd::std_specs::cmp::PartialOrdSpec;
use crate::traits::Sanitizer;

verus! {

/// `value`, or `min` where `value` is less.
pub open spec fn raised<T: PartialOrd>(value: T, min: T) -> T {
    if value.is_lt(&min) {
        min
    } else {
        value
    }
}

/// `value`, or `max` where `value` is greater.
pub open spec fn lowered<T: PartialOrd>(value: T, max: T) -> T {
    if value.is_gt(&max) {
        max
    } else {
        value
    }
}

/// [`Sanitizer`] restricts to between `min` and `max`.
///
/// The lower bound is applied first: where `min` is greater than `max`, a
/// value below `min` ends at `max`.
pub struct clamp<T> {
    pub min: T,
    pub max: T,
}

impl<T: PartialOrd + Copy> Sanitizer<T> for clamp<T> {
    open spec fn usable(&self) -> bool {
        T::obeys_partial_cmp_spec()
    }

    open spec fn sanitizes(&self, before: T, after: T) -> bool {
        after == lowered(raised(before, self.min), self.max)
    }

    fn sanitize(&self, target: &mut T) {
        if *target < self.min {
            *target = self.min;
        }
        if *target > self.max {
            *target = self.max;
        }
    }
}

/// [`Sanitizer`] restricts to no less than the min.
pub struct clamp_min<T>(pub T);

impl<T: PartialOrd + Copy> Sanitizer<T> for clamp_min<T> {
    open spec fn usable(&self) -> bool {
        T::obeys_partial_cmp_spec()
    }

    open spec fn sanitizes(&self, before: T, after: T) -> bool {
        after == raised(before, self.0)
    }

    fn sanitize(&self, target: &mut T) {
        let min = self.0;
        if *target < min {
            *target = min;
        }
    }
}

/// [`Sanitizer`] restricts to no more than the max.
pub struct clamp_max<T>(pub T);

impl<T: PartialOrd + Copy> Sanitizer<T> for clamp_max<T> {
    open spec fn usable(&self) -> bool {
        T::obeys_partial_cmp_spec()
    }

    open spec fn sanitizes(&self, before: T, after: T) -> bool {
        after == lowered(before, self.0)
    }

    fn sanitize(&self, target: &mut T) {
        let max = self.0;
        if *target > max {
            *target = max;
        }
    }
}

} // verus!
