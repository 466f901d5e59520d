//! A request guard that decodes, sanitizes and validates a request body.
//!
//! A handler that takes a [`Validated`] value only ever sees a body that was
//! decoded, then sanitized, then found valid. A body that breaks a rule fails
//! the request with status 400, and its errors are kept in the request's
//! [`ErrorCache`] for whatever renders the error response.

pub mod cache;
pub mod capability;
pub mod errors;
pub mod guard;
pub mod outcome;
pub mod response;

pub use crate::cache::{CachedValidationErrors, ErrorCache};
pub use crate::capability::{Sanitize, Validate};
pub use crate::guard::{Json, Validated};
pub use crate::outcome::{Outcome, Status, BAD_REQUEST};
pub use crate::response::Error;
pub use validator::ValidationErrors;
