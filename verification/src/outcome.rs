//! The three-way outcome of a guard, and the HTTP status of a failure.

use vstd::prelude::*;

verus! {

/// The code of "400 Bad Request": the status of every validation failure,
/// whichever rule was broken.
pub const BAD_REQUEST: u16 = 400;

/// An HTTP status, by its code.
#[derive(Clone, Copy, Debug, PartialEq, Eq)]
pub struct Status {
    pub code: u16,
}

impl Status {
    /// The status "400 Bad Request".
    pub fn bad_request() -> (status: Status)
        ensures
            status == (Status { code: BAD_REQUEST }),
    {
        Status { code: BAD_REQUEST }
    }
}

/// What a guard makes of a request: exactly one of three things.
///
/// `Forward` is no failure. It says that the guard does not apply, and another
/// one may still take the request.
#[derive(Clone, Debug, PartialEq, Eq)]
pub enum Outcome<S, E, F> {
    /// The guard applies and produced a value.
    Success(S),
    /// The guard applies and the request fails, with this status and error.
    Failure(Status, E),
    /// The guard does not apply; what it was given goes on to the next one.
    Forward(F),
}

} // verus!
