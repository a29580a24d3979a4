//! Where a pipeline lives between the calls that use it.
use vstd::prelude::*;
use crate::expansion::plan::Storage;
use crate::traits::Sanitizer;
use crate::traits::Validator;

verus! {

/// How many pipelines have been built once `uses` calls have asked for one.
pub open spec fn expected_constructions(storage: Storage, uses: nat) -> nat {
    match storage {
        Storage::Shared => if uses > 0 {
            1
        } else {
            0
        },
        Storage::PerInstance => uses,
    }
}

/// One pipeline and the way to build it, kept as `Storage` says: built on the
/// first use and kept for every later one, or built for each use and dropped
/// after it.
#[verifier::reject_recursive_types(P)]
#[verifier::reject_recursive_types(F)]
pub struct Store<P, F: Fn() -> P> {
    storage: Storage,
    build: F,
    shelf: Shelf<P>,
}

/// What a store holds at one moment, and what it has counted.
struct Shelf<P> {
    held: Option<P>,
    uses: Ghost<nat>,
    constructions: Ghost<nat>,
}

impl<P, F: Fn() -> P> Store<P, F> {
    #[verifier::type_invariant]
    spec fn well_formed(self) -> bool {
        &&& call_requires(self.build, ())
        &&& self.shelf.constructions@ == expected_constructions(self.storage, self.shelf.uses@)
        &&& self.shelf.held matches Some(pipeline) ==> call_ensures(self.build, (), pipeline)
        &&& self.storage == Storage::Shared ==> (self.shelf.held is Some <==> self.shelf.uses@
            > 0)
    }

    /// How the pipeline is kept.
    pub closed spec fn storage(self) -> Storage {
        self.storage
    }

    /// What builds the pipeline.
    pub closed spec fn builder(self) -> F {
        self.build
    }

    /// The pipeline that is at hand, if one is.
    pub closed spec fn held(self) -> Option<P> {
        self.shelf.held
    }

    /// How often a pipeline has been asked for.
    pub closed spec fn uses(self) -> nat {
        self.shelf.uses@
    }

    /// How often a pipeline has been built.
    pub closed spec fn constructions(self) -> nat {
        self.shelf.constructions@
    }

    /// A store that has built nothing yet.
    pub fn new(storage: Storage, build: F) -> (store: Self)
        requires
            call_requires(build, ()),
        ensures
            store.storage() == storage,
            store.builder() == build,
            store.held() is None,
            store.uses() == 0,
            store.constructions() == 0,
    {
        Store {
            storage,
            build,
            shelf: Shelf { held: None, uses: Ghost(0), constructions: Ghost(0) },
        }
    }

    /// Does nothing, and shows what holds of every store: it has built as many
    /// pipelines as its storage and its uses say, and what it holds is one of them.
    pub fn audit(&self)
        ensures
            self.constructions() == expected_constructions(self.storage(), self.uses()),
            self.held() matches Some(pipeline) ==> call_ensures(self.builder(), (), pipeline),
            self.storage() == Storage::Shared ==> (self.held() is Some <==> self.uses() > 0),
    {
        proof {
            use_type_invariant(self);
        }
    }

    /// Makes a pipeline ready for one use: the shared one is built unless it is
    /// there already, one of its own is built for the use otherwise.
    pub fn acquire(&mut self)
        ensures
            final(self).storage() == old(self).storage(),
            final(self).builder() == old(self).builder(),
            final(self).uses() == old(self).uses() + 1,
            final(self).constructions() == expected_constructions(
                final(self).storage(),
                final(self).uses(),
            ),
            final(self).held() matches Some(pipeline) && call_ensures(
                final(self).builder(),
                (),
                pipeline,
            ),
            old(self).storage() == Storage::Shared && old(self).held() is Some ==> final(self).held()
                == old(self).held(),
    {
        proof {
            use_type_invariant(&*self);
        }
        let rebuild = match self.storage {
            Storage::Shared => self.shelf.held.is_none(),
            Storage::PerInstance => true,
        };
        let ghost uses = self.shelf.uses@ + 1;
        if rebuild {
            let pipeline = (self.build)();
            self.shelf = Shelf {
                held: Some(pipeline),
                uses: Ghost(uses),
                constructions: Ghost(expected_constructions(self.storage, uses)),
            };
        } else {
            self.shelf.uses = Ghost(uses);
        }
    }

    /// The pipeline that `acquire` made ready.
    pub fn pipeline(&self) -> (pipeline: &P)
        requires
            self.held() is Some,
        ensures
            self.held() == Some(*pipeline),
            call_ensures(self.builder(), (), *pipeline),
    {
        proof {
            use_type_invariant(self);
        }
        self.shelf.held.as_ref().unwrap()
    }

    /// Ends one use: a pipeline built for that use alone is dropped, the shared one stays.
    pub fn release(&mut self)
        ensures
            final(self).storage() == old(self).storage(),
            final(self).builder() == old(self).builder(),
            final(self).uses() == old(self).uses(),
            final(self).constructions() == old(self).constructions(),
            final(self).held() == match old(self).storage() {
                Storage::Shared => old(self).held(),
                Storage::PerInstance => None,
            },
    {
        proof {
            use_type_invariant(&*self);
        }
        match self.storage {
            Storage::Shared => {},
            Storage::PerInstance => {
                self.shelf.held = None;
            },
        }
    }
}

/// However often a shared pipeline is used, it is built once; a pipeline that
/// is not shared is built once for each use.
pub proof fn shared_is_built_once(uses: nat)
    ensures
        uses > 0 ==> expected_constructions(Storage::Shared, uses) == 1,
        expected_constructions(Storage::Shared, 0) == 0,
        expected_constructions(Storage::PerInstance, uses) == uses,
{
}

/// The two pipelines of one newtype, each in a store of its own.
#[verifier::reject_recursive_types(S)]
#[verifier::reject_recursive_types(V)]
#[verifier::reject_recursive_types(FS)]
#[verifier::reject_recursive_types(FV)]
pub struct Definition<S, V, FS: Fn() -> S, FV: Fn() -> V> {
    sanitizers: Store<S, FS>,
    validators: Store<V, FV>,
}

impl<S, V, FS: Fn() -> S, FV: Fn() -> V> Definition<S, V, FS, FV> {
    /// The store of the sanitizer pipeline.
    pub closed spec fn sanitizers(self) -> Store<S, FS> {
        self.sanitizers
    }

    /// The store of the validator pipeline.
    pub closed spec fn validators(self) -> Store<V, FV> {
        self.validators
    }

    /// Whether every pipeline that the definition may build can be run on a `T`.
    pub open spec fn builds_usable<T>(self) -> bool where S: Sanitizer<T>, V: Validator<T> {
        &&& forall|built: S|
            call_ensures(self.sanitizers().builder(), (), built) ==> #[trigger] built.usable()
        &&& forall|built: V|
            call_ensures(self.validators().builder(), (), built) ==> #[trigger] built.usable()
    }

    /// Whether a sanitizer pipeline of the definition makes `clean` of `raw`.
    pub open spec fn sanitizes<T>(self, raw: T, clean: T) -> bool where S: Sanitizer<T> {
        exists|built: S|
            call_ensures(self.sanitizers().builder(), (), built) && #[trigger] built.sanitizes(
                raw,
                clean,
            )
    }

    /// Whether a validator pipeline of the definition gives `verdict` on `value`.
    pub open spec fn judges<T>(self, value: T, verdict: bool) -> bool where V: Validator<T> {
        exists|built: V|
            call_ensures(self.validators().builder(), (), built) && #[trigger] built.accepts(value)
                == verdict
    }

    /// Whether `later` is this definition after more uses: the same storage and the same builders.
    pub open spec fn is_kept_by(self, later: Self) -> bool {
        &&& later.sanitizers().storage() == self.sanitizers().storage()
        &&& later.sanitizers().builder() == self.sanitizers().builder()
        &&& later.validators().storage() == self.validators().storage()
        &&& later.validators().builder() == self.validators().builder()
    }

    /// A definition that has built nothing yet.
    pub fn new(storage: Storage, make_sanitizers: FS, make_validators: FV) -> (definition: Self)
        requires
            call_requires(make_sanitizers, ()),
            call_requires(make_validators, ()),
        ensures
            definition.sanitizers().storage() == storage,
            definition.sanitizers().builder() == make_sanitizers,
            definition.sanitizers().uses() == 0,
            definition.sanitizers().constructions() == 0,
            definition.validators().storage() == storage,
            definition.validators().builder() == make_validators,
            definition.validators().uses() == 0,
            definition.validators().constructions() == 0,
    {
        Definition {
            sanitizers: Store::new(storage, make_sanitizers),
            validators: Store::new(storage, make_validators),
        }
    }

    /// Runs the sanitizer pipeline on `target`.
    pub fn sanitize<T>(&mut self, target: &mut T) where S: Sanitizer<T>, V: Validator<T>
        requires
            old(self).builds_usable::<T>(),
        ensures
            old(self).is_kept_by(*final(self)),
            final(self).sanitizes(*old(target), *final(target)),
            final(self).sanitizers().uses() == old(self).sanitizers().uses() + 1,
            final(self).sanitizers().constructions() == expected_constructions(
                final(self).sanitizers().storage(),
                final(self).sanitizers().uses(),
            ),
            final(self).validators() == old(self).validators(),
    {
        self.sanitizers.acquire();
        self.sanitizers.pipeline().sanitize(target);
        self.sanitizers.release();
    }

    /// Runs the validator pipeline on `target`.
    pub fn validate<T>(&mut self, target: &T) -> (valid: bool) where
        S: Sanitizer<T>,
        V: Validator<T>,

        requires
            old(self).builds_usable::<T>(),
        ensures
            old(self).is_kept_by(*final(self)),
            final(self).judges(*target, valid),
            final(self).validators().uses() == old(self).validators().uses() + 1,
            final(self).validators().constructions() == expected_constructions(
                final(self).validators().storage(),
                final(self).validators().uses(),
            ),
            final(self).sanitizers() == old(self).sanitizers(),
    {
        self.validators.acquire();
        let valid = self.validators.pipeline().validate(target);
        self.validators.release();
        valid
    }

    /// Sanitizes `raw`, then validates what the sanitizers left: that value
    /// comes back, as accepted or as rejected.
    pub fn try_new<T>(&mut self, raw: T) -> (outcome: Result<T, T>) where
        S: Sanitizer<T>,
        V: Validator<T>,

        requires
            old(self).builds_usable::<T>(),
        ensures
            old(self).is_kept_by(*final(self)),
            match outcome {
                Ok(clean) => final(self).sanitizes(raw, clean) && final(self).judges(clean, true),
                Err(rejected) => final(self).sanitizes(raw, rejected) && final(self).judges(
                    rejected,
                    false,
                ),
            },
            final(self).sanitizers().uses() == old(self).sanitizers().uses() + 1,
            final(self).validators().uses() == old(self).validators().uses() + 1,
            final(self).sanitizers().constructions() == expected_constructions(
                final(self).sanitizers().storage(),
                final(self).sanitizers().uses(),
            ),
            final(self).validators().constructions() == expected_constructions(
                final(self).validators().storage(),
                final(self).validators().uses(),
            ),
    {
        let mut inner = raw;
        self.sanitize(&mut inner);
        if self.validate(&inner) {
            Ok(inner)
        } else {
            Err(inner)
        }
    }
}

} // verus!
