//! Debugging built-ins.
use vstd::prelude::*;
use crate::traits::Validator;

verus! {

/// [`Validator`] that always validates as invalid.
pub struct invalid;

impl<T> Validator<T> for invalid {
    open spec fn usable(&self) -> bool {
        true
    }

    open spec fn accepts(&self, target: T) -> bool {
        false
    }

    fn validate(&self, _target: &T) -> (valid: bool) {
        false
    }
}

} // verus!
