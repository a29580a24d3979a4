//! Logical operator built-ins.
use vstd::prelude::*;
use crate::traits::Validator;

verus! {

/// [`Validator`] checks if target is not the inner validation.
pub struct not<V>(pub V);

impl<T, V: Validator<T>> Validator<T> for not<V> {
    open spec fn usable(&self) -> bool {
        self.0.usable()
    }

    open spec fn accepts(&self, target: T) -> bool {
        !self.0.accepts(target)
    }

    fn validate(&self, target: &T) -> (valid: bool) {
        !self.0.validate(target)
    }
}

/// [`Validator`] checks if valid for either inner validator.
///
/// If the first validator returns a valid validation, the second is skipped.
pub struct either<V1, V2>(pub V1, pub V2);

impl<T, V1: Validator<T>, V2: Validator<T>> Validator<T> for either<V1, V2> {
    open spec fn usable(&self) -> bool {
        self.0.usable() && self.1.usable()
    }

    open spec fn accepts(&self, target: T) -> bool {
        self.0.accepts(target) || self.1.accepts(target)
    }

    fn validate(&self, target: &T) -> (valid: bool) {
        self.0.validate(target) || self.1.validate(target)
    }
}

} // verus!
