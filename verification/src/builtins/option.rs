//! Option built-ins.
use vstd::prelude::*;
use crate::traits::Sanitizer;
use crate::traits::Validator;

verus! {

/// [`Validator`] checks if [`Some`].
pub struct some;

impl<T> Validator<Option<T>> for some {
    open spec fn usable(&self) -> bool {
        true
    }

    open spec fn accepts(&self, target: Option<T>) -> bool {
        target is Some
    }

    fn validate(&self, target: &Option<T>) -> (valid: bool) {
        target.is_some()
    }
}

/// [`Sanitizer`] and [`Validator`] forwards unwrapped target if [`Some`].
///
/// For [`Sanitizer`], if [`None`] the inner sanitizer is skipped.
///
/// For [`Validator`], if [`None`] the inner validator is skipped and the
/// validation is valid. See [`unwrap_then`] if the target must be [`Some`].
pub struct some_then<SV>(pub SV);

impl<T, S: Sanitizer<T>> Sanitizer<Option<T>> for some_then<S> {
    open spec fn usable(&self) -> bool {
        self.0.usable()
    }

    open spec fn sanitizes(&self, before: Option<T>, after: Option<T>) -> bool {
        match before {
            Some(inner) => after matches Some(clean) && self.0.sanitizes(inner, clean),
            None => after is None,
        }
    }

    fn sanitize(&self, target: &mut Option<T>) {
        if let Some(inner) = target {
            self.0.sanitize(inner);
        }
    }
}

impl<T, V: Validator<T>> Validator<Option<T>> for some_then<V> {
    open spec fn usable(&self) -> bool {
        self.0.usable()
    }

    open spec fn accepts(&self, target: Option<T>) -> bool {
        match target {
            Some(inner) => self.0.accepts(inner),
            None => true,
        }
    }

    fn validate(&self, target: &Option<T>) -> (valid: bool) {
        if let Some(inner) = target {
            self.0.validate(inner)
        } else {
            true
        }
    }
}

/// [`Validator`] forwards unwrapped target if [`Some`].
///
/// If [`None`] the inner validator is skipped and the validation is invalid.
/// See [`some_then`] if the target can be [`None`].
pub struct unwrap_then<V>(pub V);

impl<T, V: Validator<T>> Validator<Option<T>> for unwrap_then<V> {
    open spec fn usable(&self) -> bool {
        self.0.usable()
    }

    open spec fn accepts(&self, target: Option<T>) -> bool {
        match target {
            Some(inner) => self.0.accepts(inner),
            None => false,
        }
    }

    fn validate(&self, target: &Option<T>) -> (valid: bool) {
        if let Some(inner) = target {
            self.0.validate(inner)
        } else {
            false
        }
    }
}

} // verus!
