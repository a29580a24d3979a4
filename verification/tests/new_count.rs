use std::sync::atomic::AtomicUsize;
use std::sync::atomic::Ordering;

use seventy::builtins::string::not_empty;
use seventy::builtins::string::trim;
use seventy::expansion::plan::Storage;
use seventy::storage::Definition;
use seventy::storage::Store;
use seventy::traits::Sanitizer;
use seventy::traits::Validator;

#[allow(non_camel_case_types)]
pub struct sanitizer;

impl sanitizer {
    pub fn new(count: &AtomicUsize) -> Self {
        let c = count.load(Ordering::Relaxed);
        count.store(c + 1, Ordering::Relaxed);

        Self
    }
}

impl Sanitizer<()> for sanitizer {
    fn sanitize(&self, _target: &mut ()) {}
}

#[allow(non_camel_case_types)]
pub struct validator;

impl validator {
    pub fn new(count: &AtomicUsize) -> Self {
        let c = count.load(Ordering::Relaxed);
        count.store(c + 1, Ordering::Relaxed);

        Self
    }
}

impl Validator<()> for validator {
    fn validate(&self, _target: &()) -> bool {
        true
    }
}

#[allow(non_camel_case_types)]
pub struct counted<'a>(&'a AtomicUsize);

impl<'a> counted<'a> {
    pub fn new(constructions: &AtomicUsize, runs: &'a AtomicUsize) -> Self {
        let count = constructions.load(Ordering::Relaxed);
        constructions.store(count + 1, Ordering::Relaxed);

        Self(runs)
    }

    fn run(&self) {
        let count = self.0.load(Ordering::Relaxed);
        self.0.store(count + 1, Ordering::Relaxed);
    }
}

impl<'a> Sanitizer<()> for counted<'a> {
    fn sanitize(&self, _target: &mut ()) {
        self.run();
    }
}

impl<'a> Validator<()> for counted<'a> {
    fn validate(&self, _target: &()) -> bool {
        self.run();

        true
    }
}

#[test]
fn sanitizer_shared() {
    static NEW_COUNT: AtomicUsize = AtomicUsize::new(0);

    let mut shared = Definition::new(Storage::Shared, || sanitizer::new(&NEW_COUNT), || ());

    assert_eq!(NEW_COUNT.load(Ordering::Relaxed), 0);

    let _ = shared.try_new(());
    assert_eq!(NEW_COUNT.load(Ordering::Relaxed), 1);

    let _ = shared.try_new(());
    assert_eq!(NEW_COUNT.load(Ordering::Relaxed), 1);
}

#[test]
fn sanitizer_independent() {
    static NEW_COUNT: AtomicUsize = AtomicUsize::new(0);

    let mut independent =
        Definition::new(Storage::PerInstance, || sanitizer::new(&NEW_COUNT), || ());

    assert_eq!(NEW_COUNT.load(Ordering::Relaxed), 0);

    let _ = independent.try_new(());
    assert_eq!(NEW_COUNT.load(Ordering::Relaxed), 1);

    let _ = independent.try_new(());
    assert_eq!(NEW_COUNT.load(Ordering::Relaxed), 2);
}

#[test]
fn validator_shared() {
    static NEW_COUNT: AtomicUsize = AtomicUsize::new(0);

    let mut shared = Definition::new(Storage::Shared, || (), || validator::new(&NEW_COUNT));

    assert_eq!(NEW_COUNT.load(Ordering::Relaxed), 0);

    let _ = shared.try_new(());
    assert_eq!(NEW_COUNT.load(Ordering::Relaxed), 1);

    let _ = shared.try_new(());
    assert_eq!(NEW_COUNT.load(Ordering::Relaxed), 1);
}

#[test]
fn validator_independent() {
    static NEW_COUNT: AtomicUsize = AtomicUsize::new(0);

    let mut independent =
        Definition::new(Storage::PerInstance, || (), || validator::new(&NEW_COUNT));

    assert_eq!(NEW_COUNT.load(Ordering::Relaxed), 0);

    let _ = independent.try_new(());
    assert_eq!(NEW_COUNT.load(Ordering::Relaxed), 1);

    let _ = independent.try_new(());
    assert_eq!(NEW_COUNT.load(Ordering::Relaxed), 2);
}

#[test]
fn independent_sanitizer_construction_count() {
    static SANITIZER_CONSTRUCTION_COUNT: AtomicUsize = AtomicUsize::new(0);
    static SANITIZER_SANITIZE_COUNT: AtomicUsize = AtomicUsize::new(0);

    let mut sanitized = Definition::new(
        Storage::PerInstance,
        || counted::new(&SANITIZER_CONSTRUCTION_COUNT, &SANITIZER_SANITIZE_COUNT),
        || (),
    );

    assert_eq!(SANITIZER_CONSTRUCTION_COUNT.load(Ordering::Relaxed), 0);
    assert_eq!(SANITIZER_SANITIZE_COUNT.load(Ordering::Relaxed), 0);

    let _ = sanitized.try_new(());

    assert_eq!(SANITIZER_CONSTRUCTION_COUNT.load(Ordering::Relaxed), 1);
    assert_eq!(SANITIZER_SANITIZE_COUNT.load(Ordering::Relaxed), 1);

    let _ = sanitized.try_new(());

    assert_eq!(SANITIZER_CONSTRUCTION_COUNT.load(Ordering::Relaxed), 2);
    assert_eq!(SANITIZER_SANITIZE_COUNT.load(Ordering::Relaxed), 2);
}

#[test]
fn independent_validator_construction_count() {
    static VALIDATOR_CONSTRUCTION_COUNT: AtomicUsize = AtomicUsize::new(0);
    static VALIDATOR_VALIDATE_COUNT: AtomicUsize = AtomicUsize::new(0);

    let mut validated = Definition::new(
        Storage::PerInstance,
        || (),
        || counted::new(&VALIDATOR_CONSTRUCTION_COUNT, &VALIDATOR_VALIDATE_COUNT),
    );

    assert_eq!(VALIDATOR_CONSTRUCTION_COUNT.load(Ordering::Relaxed), 0);
    assert_eq!(VALIDATOR_VALIDATE_COUNT.load(Ordering::Relaxed), 0);

    let _ = validated.try_new(());

    assert_eq!(VALIDATOR_CONSTRUCTION_COUNT.load(Ordering::Relaxed), 1);
    assert_eq!(VALIDATOR_VALIDATE_COUNT.load(Ordering::Relaxed), 1);

    let _ = validated.try_new(());

    assert_eq!(VALIDATOR_CONSTRUCTION_COUNT.load(Ordering::Relaxed), 2);
    assert_eq!(VALIDATOR_VALIDATE_COUNT.load(Ordering::Relaxed), 2);
}

#[test]
fn mod_sanitizer_construction_count() {
    static SANITIZER_CONSTRUCTION_COUNT: AtomicUsize = AtomicUsize::new(0);
    static SANITIZER_SANITIZE_COUNT: AtomicUsize = AtomicUsize::new(0);

    let mut sanitized = Definition::new(
        Storage::PerInstance,
        || counted::new(&SANITIZER_CONSTRUCTION_COUNT, &SANITIZER_SANITIZE_COUNT),
        || (),
    );

    assert_eq!(SANITIZER_CONSTRUCTION_COUNT.load(Ordering::Relaxed), 0);
    assert_eq!(SANITIZER_SANITIZE_COUNT.load(Ordering::Relaxed), 0);

    let _ = sanitized.try_new(());

    assert_eq!(SANITIZER_CONSTRUCTION_COUNT.load(Ordering::Relaxed), 1);
    assert_eq!(SANITIZER_SANITIZE_COUNT.load(Ordering::Relaxed), 1);

    let _ = sanitized.try_new(());

    assert_eq!(SANITIZER_CONSTRUCTION_COUNT.load(Ordering::Relaxed), 2);
    assert_eq!(SANITIZER_SANITIZE_COUNT.load(Ordering::Relaxed), 2);
}

#[test]
fn mod_validator_construction_count() {
    static VALIDATOR_CONSTRUCTION_COUNT: AtomicUsize = AtomicUsize::new(0);
    static VALIDATOR_VALIDATE_COUNT: AtomicUsize = AtomicUsize::new(0);

    let mut validated = Definition::new(
        Storage::PerInstance,
        || (),
        || counted::new(&VALIDATOR_CONSTRUCTION_COUNT, &VALIDATOR_VALIDATE_COUNT),
    );

    assert_eq!(VALIDATOR_CONSTRUCTION_COUNT.load(Ordering::Relaxed), 0);
    assert_eq!(VALIDATOR_VALIDATE_COUNT.load(Ordering::Relaxed), 0);

    let _ = validated.try_new(());

    assert_eq!(VALIDATOR_CONSTRUCTION_COUNT.load(Ordering::Relaxed), 1);
    assert_eq!(VALIDATOR_VALIDATE_COUNT.load(Ordering::Relaxed), 1);

    let _ = validated.try_new(());

    assert_eq!(VALIDATOR_CONSTRUCTION_COUNT.load(Ordering::Relaxed), 2);
    assert_eq!(VALIDATOR_VALIDATE_COUNT.load(Ordering::Relaxed), 2);
}

#[test]
fn shared_pipelines_run_on_every_call() {
    static CONSTRUCTIONS: AtomicUsize = AtomicUsize::new(0);
    static RUNS: AtomicUsize = AtomicUsize::new(0);

    let mut shared = Definition::new(
        Storage::Shared,
        || counted::new(&CONSTRUCTIONS, &RUNS),
        || (),
    );

    for _ in 0..5 {
        assert_eq!(shared.try_new(()), Ok(()));
    }

    assert_eq!(CONSTRUCTIONS.load(Ordering::Relaxed), 1);
    assert_eq!(RUNS.load(Ordering::Relaxed), 5);
}

#[test]
fn store_builds_a_shared_pipeline_once() {
    static BUILT: AtomicUsize = AtomicUsize::new(0);

    let mut store = Store::new(Storage::Shared, || {
        BUILT.fetch_add(1, Ordering::Relaxed);
        70u8
    });
    store.audit();
    assert_eq!(BUILT.load(Ordering::Relaxed), 0);

    for _ in 0..3 {
        store.acquire();
        assert_eq!(*store.pipeline(), 70);
        store.release();
        store.audit();
    }

    assert_eq!(BUILT.load(Ordering::Relaxed), 1);
    assert_eq!(*store.pipeline(), 70);
}

#[test]
fn store_builds_a_pipeline_of_its_own_for_each_use() {
    static BUILT: AtomicUsize = AtomicUsize::new(0);

    let mut store = Store::new(Storage::PerInstance, || BUILT.fetch_add(1, Ordering::Relaxed));

    for used in 0..3 {
        store.acquire();
        assert_eq!(*store.pipeline(), used);
        store.release();
        store.audit();
    }

    assert_eq!(BUILT.load(Ordering::Relaxed), 3);
}

#[test]
fn definition_counts_each_pipeline_by_itself() {
    static SANITIZERS: AtomicUsize = AtomicUsize::new(0);
    static VALIDATORS: AtomicUsize = AtomicUsize::new(0);

    let mut definition = Definition::new(
        Storage::PerInstance,
        || sanitizer::new(&SANITIZERS),
        || validator::new(&VALIDATORS),
    );

    let mut target = ();
    definition.sanitize(&mut target);
    definition.sanitize(&mut target);
    assert!(definition.validate(&target));

    assert_eq!(SANITIZERS.load(Ordering::Relaxed), 2);
    assert_eq!(VALIDATORS.load(Ordering::Relaxed), 1);
}

#[test]
fn definition_returns_the_sanitized_value_either_way() {
    let mut definition = Definition::new(Storage::Shared, || trim, || not_empty);
    assert_eq!(definition.try_new("  seventy  ".to_string()), Ok("seventy".to_string()));
    assert_eq!(definition.try_new("     ".to_string()), Err(String::new()));
}
