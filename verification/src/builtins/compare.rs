//! Comparison built-ins.
use vstd::prelude::*;
use vstd::std_specs::cmp::PartialEqSpec;
use vstd::std_specs::cmp::PartialOrdIs;
use vstd::std_specs::cmp::PartialOrdSpec;
use vstd::std_specs::range::ContainsSpec;
use crate::traits::Validator;

verus! {

/// [`Validator`] checks if less than other value.
pub struct lt<T>(pub T);

impl<T: PartialOrd> Validator<T> for lt<T> {
    open spec fn usable(&self) -> bool {
        T::obeys_partial_cmp_spec()
    }

    open spec fn accepts(&self, target: T) -> bool {
        target.is_lt(&self.0)
    }

    fn validate(&self, target: &T) -> (valid: bool) {
        *target < self.0
    }
}

/// [`Validator`] checks if less than or equal to other value.
pub struct le<T>(pub T);

impl<T: PartialOrd> Validator<T> for le<T> {
    open spec fn usable(&self) -> bool {
        T::obeys_partial_cmp_spec()
    }

    open spec fn accepts(&self, target: T) -> bool {
        target.is_le(&self.0)
    }

    fn validate(&self, target: &T) -> (valid: bool) {
        *target <= self.0
    }
}

/// [`Validator`] checks if greater than other value.
pub struct gt<T>(pub T);

impl<T: PartialOrd> Validator<T> for gt<T> {
    open spec fn usable(&self) -> bool {
        T::obeys_partial_cmp_spec()
    }

    open spec fn accepts(&self, target: T) -> bool {
        target.is_gt(&self.0)
    }

    fn validate(&self, target: &T) -> (valid: bool) {
        *target > self.0
    }
}

/// [`Validator`] checks if greater than or equal to other value.
pub struct ge<T>(pub T);

impl<T: PartialOrd> Validator<T> for ge<T> {
    open spec fn usable(&self) -> bool {
        T::obeys_partial_cmp_spec()
    }

    open spec fn accepts(&self, target: T) -> bool {
        target.is_ge(&self.0)
    }

    fn validate(&self, target: &T) -> (valid: bool) {
        *target >= self.0
    }
}

/// [`Validator`] checks if equal to other value.
pub struct eq<T>(pub T);

impl<T: PartialEq> Validator<T> for eq<T> {
    open spec fn usable(&self) -> bool {
        T::obeys_eq_spec()
    }

    open spec fn accepts(&self, target: T) -> bool {
        target.eq_spec(&self.0)
    }

    fn validate(&self, target: &T) -> (valid: bool) {
        *target == self.0
    }
}

/// [`Validator`] checks if not equal to other value.
pub struct ne<T>(pub T);

impl<T: PartialEq> Validator<T> for ne<T> {
    open spec fn usable(&self) -> bool {
        T::obeys_eq_spec()
    }

    open spec fn accepts(&self, target: T) -> bool {
        !target.eq_spec(&self.0)
    }

    fn validate(&self, target: &T) -> (valid: bool) {
        *target != self.0
    }
}

/// [`Validator`] checks if within range.
pub struct within<R>(pub R);

impl<T: PartialOrd> Validator<T> for within<core::ops::Range<T>> {
    open spec fn usable(&self) -> bool {
        T::obeys_partial_cmp_spec()
    }

    open spec fn accepts(&self, target: T) -> bool {
        self.0.start.is_le(&target) && target.is_lt(&self.0.end)
    }

    fn validate(&self, target: &T) -> (valid: bool) {
        self.0.contains(target)
    }
}

impl<T: PartialOrd> Validator<T> for within<core::ops::RangeInclusive<T>> {
    open spec fn usable(&self) -> bool {
        T::obeys_partial_cmp_spec()
    }

    open spec fn accepts(&self, target: T) -> bool {
        self.0.contains_spec(&target)
    }

    fn validate(&self, target: &T) -> (valid: bool) {
        self.0.contains(target)
    }
}

} // verus!
