//! What a payload must offer to be guarded: it can be sanitized, and it can
//! be validated.
//!
//! Each trait pairs the operation with a ghost function that names its result,
//! so that the guard's contract can say which value gets through and which
//! errors a failure carries. The ghost functions exist for contracts only:
//! nothing calls them when the program runs.

use vstd::prelude::*;
use validator::ValidationErrors;

verus! {

/// In-place normalization of a value, such as trimming or case folding.
///
/// Sanitizing cannot fail and rejects nothing. What a sanitizer cannot
/// normalize it leaves for validation to report.
pub trait Sanitize: Sized {
    /// The value that sanitizing makes of `self`.
    spec fn sanitized(self) -> Self;

    /// Replaces the value by its sanitized form.
    fn sanitize(&mut self)
        ensures
            *final(self) == old(self).sanitized(),
    ;
}

/// Inspection of a value against its rules.
pub trait Validate {
    /// What validation holds against `self`: `None` where every rule is met,
    /// else the errors.
    spec fn violations(&self) -> Option<ValidationErrors>;

    /// Accepts the value, or reports the errors found.
    fn validate(&self) -> (verdict: Result<(), ValidationErrors>)
        ensures
            verdict is Ok <==> self.violations() is None,
            verdict matches Err(errors) ==> self.violations() == Some(errors),
    ;
}

} // verus!
