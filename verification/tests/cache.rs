use struct_serval::cache::{CachedValidationErrors, ErrorCache};
use validator::{ValidationError, ValidationErrors};

fn errors_on(field: &'static str, rule: &'static str) -> ValidationErrors {
    let mut errors = ValidationErrors::new();
    errors.add(field, ValidationError::new(rule));
    errors
}

#[test]
fn new_cache_is_uninitialized_and_reads_none() {
    let cache = ErrorCache::new();
    assert!(cache.slot.is_none());
    assert!(cache.read().is_none());
}

#[test]
fn initializing_creates_an_empty_entry() {
    let mut cache = ErrorCache::new();
    let entry = cache.ensure_initialized_and_get();
    assert_eq!(entry.0, None);
    assert_eq!(cache.slot.as_ref().expect("an entry").0, None);
    assert!(cache.read().is_none());
}

#[test]
fn initializing_before_any_store_reads_none() {
    let mut cache = ErrorCache::new();
    for _ in 0..3 {
        assert_eq!(cache.ensure_initialized_and_get().0, None);
        assert!(cache.read().is_none());
    }
}

#[test]
fn initializing_never_resets_stored_errors() {
    let mut cache = ErrorCache::new();
    let errors = errors_on("age", "range");
    cache.store(errors.clone());
    for _ in 0..3 {
        assert_eq!(cache.ensure_initialized_and_get().0, Some(errors.clone()));
        assert_eq!(cache.read(), Some(&errors));
    }
}

#[test]
fn store_into_an_uninitialized_cache_initializes_it() {
    let mut cache = ErrorCache::new();
    let errors = errors_on("name", "length");
    cache.store(errors.clone());
    assert_eq!(cache.slot.as_ref().expect("an entry").0, Some(errors.clone()));
    assert_eq!(cache.read(), Some(&errors));
}

#[test]
fn store_into_an_empty_entry_fills_it() {
    let mut cache = ErrorCache::new();
    cache.ensure_initialized_and_get();
    let errors = errors_on("name", "length");
    cache.store(errors.clone());
    assert_eq!(cache.read(), Some(&errors));
}

#[test]
fn later_store_replaces_earlier_errors() {
    let mut cache = ErrorCache::new();
    let earlier = errors_on("name", "length");
    let later = errors_on("age", "range");
    assert_ne!(earlier, later);
    cache.store(earlier);
    cache.store(later.clone());
    assert_eq!(cache.read(), Some(&later));
    assert_eq!(cache.ensure_initialized_and_get().0, Some(later));
}

#[test]
fn reading_twice_finds_the_same_errors() {
    let mut cache = ErrorCache::new();
    let errors = errors_on("age", "range");
    cache.store(errors.clone());
    assert_eq!(cache.read(), Some(&errors));
    assert_eq!(cache.read(), Some(&errors));
}

#[test]
fn caches_of_two_requests_are_apart() {
    let mut first = ErrorCache::new();
    let second = ErrorCache::new();
    first.store(errors_on("age", "range"));
    assert!(first.read().is_some());
    assert!(second.read().is_none());
    assert!(second.slot.is_none());
}

#[test]
fn cached_entry_clones_with_its_errors() {
    let entry = CachedValidationErrors(Some(errors_on("age", "range")));
    let copy = entry.clone();
    assert_eq!(copy.0, entry.0);
    assert_eq!(CachedValidationErrors(None).clone().0, None);
}

#[test]
fn take_hands_out_the_stored_errors() {
    let mut cache = ErrorCache::new();
    let errors = errors_on("age", "range");
    cache.store(errors.clone());
    assert_eq!(cache.take(), Some(errors));
}

#[test]
fn take_finds_nothing_where_nothing_was_stored() {
    assert_eq!(ErrorCache::new().take(), None);
    let mut cache = ErrorCache::new();
    cache.ensure_initialized_and_get();
    assert_eq!(cache.take(), None);
}
