//! Collection built-ins.
use vstd::prelude::*;
use vstd::laws_cmp::obeys_cmp;
use vstd::std_specs::cmp::PartialEqSpec;
use vstd::std_specs::cmp::PartialOrdIs;
use crate::traits::Sanitizer;
use crate::traits::Validator;

verus! {

/// Whether `target` equals one of `items`.
pub open spec fn is_among<T: PartialEq>(items: Seq<T>, target: T) -> bool {
    exists|i: int| 0 <= i < items.len() && (#[trigger] items[i]).eq_spec(&target)
}

/// [`Validator`] checks if among the collection.
pub struct among<C>(pub C);

impl<T: PartialEq, const N: usize> Validator<T> for among<[T; N]> {
    open spec fn usable(&self) -> bool {
        T::obeys_eq_spec()
    }

    open spec fn accepts(&self, target: T) -> bool {
        is_among(self.0@, target)
    }

    fn validate(&self, target: &T) -> (valid: bool) {
        let mut i: usize = 0;
        while i < N
            invariant
                i <= N,
                T::obeys_eq_spec(),
                forall|j: int| 0 <= j < i ==> !(#[trigger] self.0@[j]).eq_spec(target),
            decreases N - i,
        {
            if self.0[i] == *target {
                return true;
            }
            i += 1;
        }
        false
    }
}

/// Whether no item of `items` is greater than one that stands behind it.
pub open spec fn is_ascending<T: Ord>(items: Seq<T>) -> bool {
    forall|i: int, j: int|
        #![trigger items[i], items[j]]
        0 <= i <= j < items.len() ==> items[i].is_le(&items[j])
}

/// Whether `after` holds the items of `before`, each as often, in ascending order.
pub open spec fn is_sorted_form<T: Ord>(before: Seq<T>, after: Seq<T>) -> bool {
    after.to_multiset() == before.to_multiset() && is_ascending(after)
}

/// `sort` of std on the slice of a vector: the same items in ascending order.
/// Where the order of `T` is no total order the call may panic, so that is
/// asked of the caller.
#[verifier::external_body]
pub(crate) fn sort_vec<T: Ord>(items: &mut Vec<T>)
    requires
        obeys_cmp::<T>(),
    ensures
        is_sorted_form(old(items)@, final(items)@),
{
    items.sort()
}

/// `sort` of std on the slice of an array: the same items in ascending order.
/// Where the order of `T` is no total order the call may panic, so that is
/// asked of the caller.
#[verifier::external_body]
pub(crate) fn sort_array<T: Ord, const N: usize>(items: &mut [T; N])
    requires
        obeys_cmp::<T>(),
    ensures
        is_sorted_form(old(items)@, final(items)@),
{
    items.sort()
}

/// [`Sanitizer`] sorts elements.
pub struct sort;

impl<T: Ord, const N: usize> Sanitizer<[T; N]> for sort {
    open spec fn usable(&self) -> bool {
        obeys_cmp::<T>()
    }

    open spec fn sanitizes(&self, before: [T; N], after: [T; N]) -> bool {
        is_sorted_form(before@, after@)
    }

    fn sanitize(&self, target: &mut [T; N]) {
        sort_array(target);
    }
}

impl<T: Ord> Sanitizer<Vec<T>> for sort {
    open spec fn usable(&self) -> bool {
        obeys_cmp::<T>()
    }

    open spec fn sanitizes(&self, before: Vec<T>, after: Vec<T>) -> bool {
        is_sorted_form(before@, after@)
    }

    fn sanitize(&self, target: &mut Vec<T>) {
        sort_vec(target);
    }
}

/// [`Validator`] forwards length to inner validator.
pub struct length<V>(pub V);

impl<T, const N: usize, V: Validator<usize>> Validator<[T; N]> for length<V> {
    open spec fn usable(&self) -> bool {
        self.0.usable()
    }

    open spec fn accepts(&self, target: [T; N]) -> bool {
        self.0.accepts(N)
    }

    fn validate(&self, _target: &[T; N]) -> (valid: bool) {
        self.0.validate(&N)
    }
}

impl<T, V: Validator<usize>> Validator<Vec<T>> for length<V> {
    open spec fn usable(&self) -> bool {
        self.0.usable()
    }

    open spec fn accepts(&self, target: Vec<T>) -> bool {
        self.0.accepts(target.len())
    }

    fn validate(&self, target: &Vec<T>) -> (valid: bool) {
        self.0.validate(&target.len())
    }
}

} // verus!
