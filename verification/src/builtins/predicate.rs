//! Predicate built-ins.
use vstd::prelude::*;
use crate::traits::Sanitizer;
use crate::traits::Validator;

verus! {

/// Whether `predicate` can be asked about every value, and gives one answer for each.
pub open spec fn is_predicate<T, F: Fn(&T) -> bool>(predicate: F) -> bool {
    &&& forall|target: T| call_requires(predicate, (&target,))
    &&& forall|target: T, first: bool, second: bool|
        call_ensures(predicate, (&target,), first) && call_ensures(predicate, (&target,), second)
            ==> first == second
}

/// Whether `predicate` holds of `target`.
pub open spec fn holds<T, F: Fn(&T) -> bool>(predicate: F, target: T) -> bool {
    call_ensures(predicate, (&target,), true)
}

/// [`Validator`] checks if satisfies predicate.
pub struct satisfies<F>(pub F);

impl<T, F: Fn(&T) -> bool> Validator<T> for satisfies<F> {
    open spec fn usable(&self) -> bool {
        is_predicate::<T, F>(self.0)
    }

    open spec fn accepts(&self, target: T) -> bool {
        holds(self.0, target)
    }

    fn validate(&self, target: &T) -> (valid: bool) {
        (self.0)(target)
    }
}

/// [`Sanitizer`] and [`Validator`] forwards target if satisfies predicate.
///
/// For [`Sanitizer`], if not satisfied the inner sanitizer is skipped.
///
/// For [`Validator`], if not satisfied the inner validator is skipped and the
/// validation is valid.
pub struct satisfies_then<F, SV>(pub F, pub SV);

impl<T, F: Fn(&T) -> bool, S: Sanitizer<T>> Sanitizer<T> for satisfies_then<F, S> {
    open spec fn usable(&self) -> bool {
        is_predicate::<T, F>(self.0) && self.1.usable()
    }

    open spec fn sanitizes(&self, before: T, after: T) -> bool {
        if holds(self.0, before) {
            self.1.sanitizes(before, after)
        } else {
            after == before
        }
    }

    fn sanitize(&self, target: &mut T) {
        if (self.0)(target) {
            self.1.sanitize(target);
        }
    }
}

impl<T, F: Fn(&T) -> bool, V: Validator<T>> Validator<T> for satisfies_then<F, V> {
    open spec fn usable(&self) -> bool {
        is_predicate::<T, F>(self.0) && self.1.usable()
    }

    open spec fn accepts(&self, target: T) -> bool {
        holds(self.0, target) ==> self.1.accepts(target)
    }

    fn validate(&self, target: &T) -> (valid: bool) {
        if (self.0)(target) {
            self.1.validate(target)
        } else {
            true
        }
    }
}

} // verus!
