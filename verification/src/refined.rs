//! A newtype made from a recipe: the pipelines named by a type, run by one generic wrapper.
use vstd::prelude::*;
use crate::traits::Bypassable;
use crate::traits::Newtype;
use crate::traits::Sanitizable;
use crate::traits::Sanitizer;
use crate::traits::Validatable;
use crate::traits::Validator;

verus! {

/// The pipelines of one newtype, built whenever they are asked for.
pub trait Recipe {
    /// The value that the newtype wraps.
    type Inner;

    /// The sanitizer pipeline.
    type Sanitizers: Sanitizer<Self::Inner>;

    /// The validator pipeline.
    type Validators: Validator<Self::Inner>;

    /// Whether `clean` is what the sanitizer pipeline makes of `raw`.
    open spec fn sanitizes(raw: Self::Inner, clean: Self::Inner) -> bool {
        true
    }

    /// Whether the validator pipeline accepts `value`.
    open spec fn accepts(value: Self::Inner) -> bool {
        true
    }

    /// Builds the sanitizer pipeline.
    fn sanitizers() -> (built: Self::Sanitizers)
        ensures
            built.usable(),
            forall|raw: Self::Inner, clean: Self::Inner|
                built.sanitizes(raw, clean) == Self::sanitizes(raw, clean),
    ;

    /// Builds the validator pipeline.
    fn validators() -> (built: Self::Validators)
        ensures
            built.usable(),
            forall|value: Self::Inner| built.accepts(value) == Self::accepts(value),
    ;
}

/// The recipe with nothing in it: every value is left as it is, and accepted.
pub struct Plain<T> {
    inner: core::marker::PhantomData<T>,
}

impl<T> Recipe for Plain<T> {
    type Inner = T;

    type Sanitizers = ();

    type Validators = ();

    open spec fn sanitizes(raw: T, clean: T) -> bool {
        clean == raw
    }

    open spec fn accepts(value: T) -> bool {
        true
    }

    fn sanitizers() -> (built: ()) {
        ()
    }

    fn validators() -> (built: ()) {
        ()
    }
}

/// A value that has been through the pipelines of `R`, unless it was made by a bypass.
pub struct Refined<R: Recipe> {
    inner: R::Inner,
}

impl<R: Recipe> Sanitizable for Refined<R> {
    fn sanitize(target: &mut R::Inner) {
        let sanitizers = R::sanitizers();
        sanitizers.sanitize(target);
    }
}

impl<R: Recipe> Validatable for Refined<R> {
    fn validate(target: &R::Inner) -> (valid: bool) {
        let validators = R::validators();
        validators.validate(target)
    }
}

impl<R: Recipe> Newtype for Refined<R> {
    type Inner = R::Inner;

    closed spec fn inner(&self) -> R::Inner {
        self.inner
    }

    open spec fn sanitizes(raw: R::Inner, clean: R::Inner) -> bool {
        R::sanitizes(raw, clean)
    }

    open spec fn accepts(value: R::Inner) -> bool {
        R::accepts(value)
    }

    fn try_new(raw: R::Inner) -> (outcome: Result<Self, R::Inner>) {
        let mut inner = raw;
        Self::sanitize(&mut inner);
        if Self::validate(&inner) {
            Ok(Refined { inner })
        } else {
            Err(inner)
        }
    }

    fn borrow_inner(&self) -> (inner: &R::Inner) {
        &self.inner
    }

    fn into_inner(self) -> (inner: R::Inner) {
        self.inner
    }
}

impl<R: Recipe> Bypassable for Refined<R> {
    fn unchecked_new(raw: R::Inner) -> (made: Self) {
        Refined { inner: raw }
    }

    fn unsanitized_new(raw: R::Inner) -> (outcome: Result<Self, R::Inner>) {
        if Self::validate(&raw) {
            Ok(Refined { inner: raw })
        } else {
            Err(raw)
        }
    }

    fn unvalidated_new(raw: R::Inner) -> (made: Self) {
        let mut inner = raw;
        Self::sanitize(&mut inner);
        Refined { inner }
    }

    fn borrow_inner_mut(&mut self) -> (inner: &mut R::Inner) {
        &mut self.inner
    }
}

} // verus!
