//! The traits that a newtype and the steps of its pipelines implement.
//!
//! Each trait states, beside its functions, what they compute: a relation or a
//! predicate that an implementation defines and that its functions are proved
//! against. The definitions given here are the ones that say nothing. They are
//! what an implementation written without proof is left with, and a proved
//! implementation replaces them by its own.
use vstd::prelude::*;

verus! {

/// Sanitization logic: a step that rewrites a candidate value in place.
pub trait Sanitizer<T> {
    /// Whether `sanitize` may be called on this sanitizer.
    open spec fn usable(&self) -> bool {
        true
    }

    /// Whether `after` is what sanitizing `before` leaves in its place.
    open spec fn sanitizes(&self, before: T, after: T) -> bool {
        true
    }

    /// Sanitizes the given target.
    fn sanitize(&self, target: &mut T)
        requires
            self.usable(),
        ensures
            self.sanitizes(*old(target), *final(target)),
    ;
}

/// Validation logic: a step that inspects a candidate value and accepts or rejects it.
pub trait Validator<T> {
    /// Whether `validate` may be called on this validator.
    open spec fn usable(&self) -> bool {
        true
    }

    /// The predicate that `validate` decides.
    open spec fn accepts(&self, target: T) -> bool {
        true
    }

    /// Validates the given target.
    fn validate(&self, target: &T) -> (valid: bool)
        requires
            self.usable(),
        ensures
            valid == self.accepts(*target),
    ;
}

/// A type that wraps one inner value and is built only through its pipelines.
pub trait Newtype: Sized {
    /// The inner value of the newtype.
    type Inner;

    /// The wrapped value.
    open spec fn inner(&self) -> Self::Inner {
        arbitrary()
    }

    /// Whether `clean` is what the sanitizer pipeline makes of `raw`.
    open spec fn sanitizes(raw: Self::Inner, clean: Self::Inner) -> bool {
        true
    }

    /// Whether the validator pipeline accepts `value`.
    open spec fn accepts(value: Self::Inner) -> bool {
        true
    }

    /// Attempts to construct the newtype.
    ///
    /// The input is sanitized first, and the sanitized value is what is
    /// validated. It is also what comes back when validation rejects it.
    fn try_new(raw: Self::Inner) -> (outcome: Result<Self, Self::Inner>)
        ensures
            match outcome {
                Ok(made) => Self::sanitizes(raw, made.inner()) && Self::accepts(made.inner()),
                Err(rejected) => Self::sanitizes(raw, rejected) && !Self::accepts(rejected),
            },
    ;

    /// Gets the inner value.
    fn borrow_inner(&self) -> (inner: &Self::Inner)
        ensures
            *inner == self.inner(),
    ;

    /// Converts to the inner value.
    fn into_inner(self) -> (inner: Self::Inner)
        ensures
            inner == self.inner(),
    ;
}

/// A newtype that can be sanitized.
pub trait Sanitizable: Newtype {
    /// Runs the sanitizer pipeline on `target`.
    fn sanitize(target: &mut Self::Inner)
        ensures
            Self::sanitizes(*old(target), *final(target)),
    ;
}

/// A newtype that can be validated.
pub trait Validatable: Newtype {
    /// Runs the validator pipeline on `target`, which it leaves as it is.
    fn validate(target: &Self::Inner) -> (valid: bool)
        ensures
            valid == Self::accepts(*target),
    ;
}

/// A newtype with the `bypassable` upgrade.
///
/// Every function of this trait can produce an instance that the pipelines
/// would not have produced: what the newtype guarantees then rests on the caller.
pub trait Bypassable: Newtype {
    /// Constructs the newtype, skipping sanitization and validation.
    fn unchecked_new(raw: Self::Inner) -> (made: Self)
        ensures
            made.inner() == raw,
    ;

    /// Constructs the newtype, skipping sanitization.
    fn unsanitized_new(raw: Self::Inner) -> (outcome: Result<Self, Self::Inner>)
        ensures
            match outcome {
                Ok(made) => Self::accepts(raw) && made.inner() == raw,
                Err(rejected) => !Self::accepts(raw) && rejected == raw,
            },
    ;

    /// Constructs the newtype, skipping validation.
    fn unvalidated_new(raw: Self::Inner) -> (made: Self)
        ensures
            Self::sanitizes(raw, made.inner()),
    ;

    /// Gets the inner value mutably.
    fn borrow_inner_mut(&mut self) -> (inner: &mut Self::Inner)
        ensures
            *inner == old(self).inner(),
            final(self).inner() == *final(inner),
    ;
}

/// Building with no pipeline at all and unwrapping gives the value back as it was.
pub fn bypass_round_trip<N: Bypassable>(raw: N::Inner) -> (inner: N::Inner)
    ensures
        inner == raw,
{
    N::unchecked_new(raw).into_inner()
}

/// Whatever `try_new` returns, one sanitized form of the input decided it: the
/// validators accepted that form, which is then what was wrapped, or rejected
/// it. They were never asked about the input as it came.
pub proof fn validation_follows_sanitization<N: Newtype>(
    raw: N::Inner,
    outcome: Result<N, N::Inner>,
)
    requires
        call_ensures(N::try_new, (raw,), outcome),
    ensures
        exists|clean: N::Inner|
            {
                &&& #[trigger] N::sanitizes(raw, clean)
                &&& outcome is Ok <==> N::accepts(clean)
                &&& outcome matches Ok(made) ==> made.inner() == clean
                &&& outcome matches Err(rejected) ==> rejected == clean
            },
{
    match outcome {
        Ok(made) => {
            assert(N::sanitizes(raw, made.inner()));
        },
        Err(rejected) => {
            assert(N::sanitizes(raw, rejected));
        },
    }
}

/// What a failed `try_new` hands back is the input as the sanitizers left it,
/// and the validators reject it.
pub proof fn rejection_returns_the_sanitized_value<N: Newtype>(
    raw: N::Inner,
    outcome: Result<N, N::Inner>,
)
    requires
        call_ensures(N::try_new, (raw,), outcome),
        outcome is Err,
    ensures
        N::sanitizes(raw, outcome->Err_0),
        !N::accepts(outcome->Err_0),
{
}

/// What `unchecked_new` wraps and `into_inner` unwraps is the value as it was given.
pub proof fn unchecked_value_is_kept<N: Bypassable>(raw: N::Inner, made: N, inner: N::Inner)
    requires
        call_ensures(N::unchecked_new, (raw,), made),
        call_ensures(N::into_inner, (made,), inner),
    ensures
        inner == raw,
{
}

} // verus!
