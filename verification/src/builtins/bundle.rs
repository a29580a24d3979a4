//! Bundle built-ins.
//!
//! A bundle combines multiple sanitizers / validators into one: the unit
//! bundle holds none, and a pair holds two, each of which may be a bundle
//! again. A vector holds any number of steps of one type, and a boxed step
//! stands for the step in the box, so that a vector of boxes holds steps of
//! any types.
use vstd::prelude::*;
use crate::traits::Sanitizer;
use crate::traits::Validator;

verus! {

impl<T> Sanitizer<T> for () {
    open spec fn usable(&self) -> bool {
        true
    }

    open spec fn sanitizes(&self, before: T, after: T) -> bool {
        after == before
    }

    fn sanitize(&self, _target: &mut T) {
    }
}

impl<T, S1: Sanitizer<T>, S2: Sanitizer<T>> Sanitizer<T> for (S1, S2) {
    open spec fn usable(&self) -> bool {
        self.0.usable() && self.1.usable()
    }

    open spec fn sanitizes(&self, before: T, after: T) -> bool {
        exists|between: T| self.0.sanitizes(before, between) && self.1.sanitizes(between, after)
    }

    fn sanitize(&self, target: &mut T) {
        self.0.sanitize(target);
        let ghost between = *target;
        self.1.sanitize(target);
        assert(self.0.sanitizes(*old(target), between) && self.1.sanitizes(between, *target));
    }
}

impl<T> Validator<T> for () {
    open spec fn usable(&self) -> bool {
        true
    }

    open spec fn accepts(&self, target: T) -> bool {
        true
    }

    fn validate(&self, _target: &T) -> (valid: bool) {
        true
    }
}

impl<T, V1: Validator<T>, V2: Validator<T>> Validator<T> for (V1, V2) {
    open spec fn usable(&self) -> bool {
        self.0.usable() && self.1.usable()
    }

    open spec fn accepts(&self, target: T) -> bool {
        self.0.accepts(target) && self.1.accepts(target)
    }

    fn validate(&self, target: &T) -> (valid: bool) {
        self.0.validate(target) && self.1.validate(target)
    }
}

impl<T> Sanitizer<T> for Box<dyn Sanitizer<T>> {
    open spec fn usable(&self) -> bool {
        (**self).usable()
    }

    open spec fn sanitizes(&self, before: T, after: T) -> bool {
        (**self).sanitizes(before, after)
    }

    fn sanitize(&self, target: &mut T) {
        (**self).sanitize(target)
    }
}

impl<T> Validator<T> for Box<dyn Validator<T>> {
    open spec fn usable(&self) -> bool {
        (**self).usable()
    }

    open spec fn accepts(&self, target: T) -> bool {
        (**self).accepts(target)
    }

    fn validate(&self, target: &T) -> (valid: bool) {
        (**self).validate(target)
    }
}

/// Whether `stages` are the values that a target passes through while `steps`
/// sanitize it one after the other, from the target as it came to the target
/// as the last step left it.
pub open spec fn is_passage<T, S: Sanitizer<T>>(steps: Seq<S>, stages: Seq<T>) -> bool {
    &&& stages.len() == steps.len() + 1
    &&& forall|i: int|
        0 <= i < steps.len() ==> (#[trigger] steps[i]).sanitizes(stages[i], stages[i + 1])
}

impl<T, S: Sanitizer<T>> Sanitizer<T> for Vec<S> {
    open spec fn usable(&self) -> bool {
        forall|i: int| 0 <= i < self@.len() ==> (#[trigger] self@[i]).usable()
    }

    open spec fn sanitizes(&self, before: T, after: T) -> bool {
        exists|stages: Seq<T>|
            #[trigger] is_passage(self@, stages) && stages.first() == before && stages.last()
                == after
    }

    fn sanitize(&self, target: &mut T) {
        let ghost mut stages: Seq<T> = seq![*target];
        let mut i: usize = 0;
        while i < self.len()
            invariant
                i <= self.len(),
                forall|j: int| 0 <= j < self@.len() ==> (#[trigger] self@[j]).usable(),
                is_passage(self@.take(i as int), stages),
                stages.first() == *old(target),
                stages.last() == *target,
            decreases self.len() - i,
        {
            let ghost before = stages;
            self[i].sanitize(target);
            proof {
                stages = before.push(*target);
                assert forall|j: int| 0 <= j < i + 1 implies (#[trigger] self@.take(
                    i + 1,
                )[j]).sanitizes(stages[j], stages[j + 1]) by {
                    if j < i {
                        assert(self@.take(i as int)[j].sanitizes(before[j], before[j + 1]));
                    }
                }
            }
            i += 1;
        }
        proof {
            assert(self@.take(i as int) == self@);
        }
    }
}

impl<T, V: Validator<T>> Validator<T> for Vec<V> {
    open spec fn usable(&self) -> bool {
        forall|i: int| 0 <= i < self@.len() ==> (#[trigger] self@[i]).usable()
    }

    open spec fn accepts(&self, target: T) -> bool {
        forall|i: int| 0 <= i < self@.len() ==> (#[trigger] self@[i]).accepts(target)
    }

    fn validate(&self, target: &T) -> (valid: bool) {
        let mut i: usize = 0;
        while i < self.len()
            invariant
                i <= self.len(),
                forall|j: int| 0 <= j < self@.len() ==> (#[trigger] self@[j]).usable(),
                forall|j: int| 0 <= j < i ==> (#[trigger] self@[j]).accepts(*target),
            decreases self.len() - i,
        {
            if !self[i].validate(target) {
                return false;
            }
            i += 1;
        }
        true
    }
}

} // verus!
