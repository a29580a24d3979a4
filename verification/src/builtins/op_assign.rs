//! Assignment built-ins.
use vstd::prelude::*;
use crate::traits::Sanitizer;

verus! {

/// [`Sanitizer`] assigns the target to the given value.
pub struct assign<T>(pub T);

impl<T: Clone> Sanitizer<T> for assign<T> {
    open spec fn usable(&self) -> bool {
        true
    }

    open spec fn sanitizes(&self, before: T, after: T) -> bool {
        cloned(self.0, after)
    }

    fn sanitize(&self, target: &mut T) {
        *target = self.0.clone();
    }
}

} // verus!
