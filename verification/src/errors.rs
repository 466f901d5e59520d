//! The error set of a failed validation, as the `validator` crate defines it.

use vstd::prelude::*;

verus! {

/// Declares `validator::ValidationErrors`, the error set that a validator
/// produces.
///
/// A value of it is opaque here: nothing in this crate looks inside one, it is
/// only handed on. Two of them are equal in a contract when they are the same
/// set of errors.
#[verifier::external_type_specification]
#[verifier::external_body]
pub struct ExValidationErrors(validator::ValidationErrors);

/// The contract of `Clone::clone` on `validator::ValidationErrors`.
///
/// The impl is derived and clones field by field, so the result is taken to be
/// the very set of errors it was cloned from. This is believed, not proved.
pub assume_specification[ <validator::ValidationErrors as Clone>::clone ](
    errors: &validator::ValidationErrors,
) -> (copy: validator::ValidationErrors)
    ensures
        copy == *errors,
;

} // verus!
