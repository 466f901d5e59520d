//! The shape of the error response.

use vstd::prelude::*;
use validator::ValidationErrors;

verus! {

/// What the error response of a failed request says: a numeric code, a
/// message, and the validation errors where there are any.
///
/// The errors are borrowed from where they are kept, not copied.
#[derive(Debug)]
pub struct Error<'a> {
    pub code: u128,
    pub message: &'a str,
    pub errors: Option<&'a ValidationErrors>,
}

impl<'a> Error<'a> {
    /// Puts a response together from its three parts.
    pub fn new(code: u128, message: &'a str, errors: Option<&'a ValidationErrors>) -> (response:
        Error<'a>)
        ensures
            response.code == code,
            response.message == message,
            response.errors == errors,
    {
        Error { code, message, errors }
    }
}

} // verus!
