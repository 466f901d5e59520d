//! The error cache of one request.
//!
//! A failed validation leaves its errors here, so that whatever renders the
//! error response later can show field-level detail without validating again.
//! The failure itself carries the same errors; for rendering, the cache is the
//! place to look.
//!
//! A cache belongs to one request and is handed down the call chain by
//! `&mut`; nothing here is shared between requests.

use vstd::prelude::*;
use validator::ValidationErrors;

verus! {

/// The entry of an initialized cache: the errors of the failed validation, or
/// nothing.
#[derive(Clone, Debug)]
pub struct CachedValidationErrors(pub Option<ValidationErrors>);

/// The error cache of one request.
///
/// It starts out uninitialized (`slot` is `None`). Initialization creates an
/// empty entry, and a store makes its errors the entry, whatever was there.
#[derive(Debug)]
pub struct ErrorCache {
    pub slot: Option<CachedValidationErrors>,
}

impl ErrorCache {
    /// The cache of a request that has just arrived.
    pub open spec fn uninitialized() -> ErrorCache {
        ErrorCache { slot: None }
    }

    /// Whether an entry exists.
    pub open spec fn is_initialized(self) -> bool {
        self.slot is Some
    }

    /// The errors that a reader finds: `None` while the cache is
    /// uninitialized or its entry is empty.
    pub open spec fn held(self) -> Option<ValidationErrors> {
        match self.slot {
            Some(entry) => entry.0,
            None => None,
        }
    }

    /// The cache after initialization: an existing entry stays as it is, a
    /// missing one is created empty.
    pub open spec fn initialized(self) -> ErrorCache {
        match self.slot {
            Some(_) => self,
            None => ErrorCache { slot: Some(CachedValidationErrors(None)) },
        }
    }

    /// The cache after `calls` initializations in a row.
    pub open spec fn initialized_times(self, calls: nat) -> ErrorCache
        decreases calls,
    {
        if calls == 0 {
            self
        } else {
            self.initialized().initialized_times((calls - 1) as nat)
        }
    }

    /// The cache after `errors` were stored in it: they replace the entry.
    pub open spec fn stored(self, errors: ValidationErrors) -> ErrorCache {
        ErrorCache { slot: Some(CachedValidationErrors(Some(errors))) }
    }

    /// Creates the cache of a new request: uninitialized.
    pub fn new() -> (cache: ErrorCache)
        ensures
            cache == ErrorCache::uninitialized(),
    {
        ErrorCache { slot: None }
    }

    /// Creates an empty entry where there is none, and hands out the entry
    /// that the cache then holds.
    ///
    /// An entry that exists is never reset.
    pub fn ensure_initialized_and_get(&mut self) -> (entry: &CachedValidationErrors)
        ensures
            *final(self) == old(self).initialized(),
            final(self).slot == Some(*entry),
            entry.0 == old(self).held(),
    {
        if self.slot.is_none() {
            self.slot = Some(CachedValidationErrors(None));
        }
        self.slot.as_ref().unwrap()
    }

    /// Makes `errors` the current error set, in place of whatever was held.
    pub fn store(&mut self, errors: ValidationErrors)
        ensures
            *final(self) == old(self).stored(errors),
    {
        self.slot = Some(CachedValidationErrors(Some(errors)));
    }

    /// The errors held, if any. Reading changes nothing and creates no entry.
    pub fn read(&self) -> (errors: Option<&ValidationErrors>)
        ensures
            match errors {
                Some(found) => self.held() == Some(*found),
                None => self.held() is None,
            },
    {
        match &self.slot {
            Some(entry) => entry.0.as_ref(),
            None => None,
        }
    }

    /// Ends the use of the cache and hands out the errors held, if any.
    pub fn take(self) -> (errors: Option<ValidationErrors>)
        ensures
            errors == self.held(),
    {
        match self.slot {
            Some(entry) => entry.0,
            None => None,
        }
    }

    /// Initializing a cache never changes what a reader finds in it.
    pub proof fn lemma_initializing_keeps_what_is_read(self)
        ensures
            self.initialized().held() == self.held(),
            self.initialized().is_initialized(),
    {
    }

    /// Initializing twice is the same as initializing once.
    pub proof fn lemma_initializing_is_idempotent(self)
        ensures
            self.initialized().initialized() == self.initialized(),
    {
    }

    /// However often a cache is initialized, a reader finds in it what was
    /// there before.
    pub proof fn lemma_repeated_initializing_keeps_what_is_read(self, calls: nat)
        ensures
            self.initialized_times(calls).held() == self.held(),
        decreases calls,
    {
        if calls > 0 {
            self.initialized().lemma_repeated_initializing_keeps_what_is_read((calls - 1) as nat);
        }
    }

    /// A cache in which nothing was ever stored reads as `None`, however often
    /// it was initialized.
    pub proof fn lemma_nothing_stored_reads_none(calls: nat)
        ensures
            ErrorCache::uninitialized().initialized_times(calls).held() is None,
    {
        ErrorCache::uninitialized().lemma_repeated_initializing_keeps_what_is_read(calls);
    }

    /// What was stored is what a reader finds, also after later
    /// initializations.
    pub proof fn lemma_stored_errors_are_read(self, errors: ValidationErrors, calls: nat)
        ensures
            self.stored(errors).held() == Some(errors),
            self.stored(errors).initialized_times(calls).held() == Some(errors),
    {
        self.stored(errors).lemma_repeated_initializing_keeps_what_is_read(calls);
    }

    /// Of two stores the later one counts: nothing of the earlier remains.
    pub proof fn lemma_later_store_wins(self, earlier: ValidationErrors, later: ValidationErrors)
        ensures
            self.stored(earlier).stored(later) == self.stored(later),
    {
    }
}

} // verus!
