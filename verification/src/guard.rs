//! The guard: decode, then sanitize, then validate.
//!
//! Decoding may have to wait for the body, so it happens outside. The guard
//! takes what the decoder made of the body and does the rest: it hands a decode
//! failure and a forward on as they are, and sanitizes and validates a decoded
//! body. A failed validation fails the request with status 400 and leaves its
//! errors in the request's error cache.

use vstd::prelude::*;
use validator::ValidationErrors;
use crate::cache::ErrorCache;
use crate::capability::{Sanitize, Validate};
use crate::outcome::{Outcome, Status, BAD_REQUEST};

verus! {

/// A request body decoded from JSON.
#[derive(Clone, Debug, PartialEq, Eq)]
pub struct Json<T>(pub T);

/// A value that the guard let through: sanitized, and valid.
#[derive(Clone, Debug)]
pub struct Validated<T>(pub T);

impl<T> Validated<Json<T>> {
    /// Unwraps both layers and hands out the payload.
    pub fn into_deep_inner(self) -> (inner: T)
        ensures
            inner == self.0.0,
    {
        self.0.0
    }
}

/// A body is sanitized by sanitizing its payload.
impl<T: Sanitize> Sanitize for Json<T> {
    open spec fn sanitized(self) -> Self {
        Json(self.0.sanitized())
    }

    fn sanitize(&mut self) {
        self.0.sanitize();
    }
}

/// A body is valid where its payload is, and breaks the rules that its
/// payload breaks.
impl<T: Validate> Validate for Json<T> {
    open spec fn violations(&self) -> Option<ValidationErrors> {
        self.0.violations()
    }

    fn validate(&self) -> (verdict: Result<(), ValidationErrors>) {
        self.0.validate()
    }
}

impl<D: Sanitize + Validate> Validated<Json<D>> {
    /// The outcome of the guard on what the decoder made of the body.
    ///
    /// A decode failure keeps the decoder's status and error, and a forward
    /// keeps what is forwarded. A decoded body is sanitized and the result is
    /// validated: without errors it is the success value, with errors the
    /// request fails with status 400 and those errors.
    pub open spec fn outcome_of<E, F>(decoded: Outcome<Json<D>, E, F>) -> Outcome<
        Validated<Json<D>>,
        Result<ValidationErrors, E>,
        F,
    > {
        match decoded {
            Outcome::Failure(status, error) => Outcome::Failure(status, Err(error)),
            Outcome::Forward(data) => Outcome::Forward(data),
            Outcome::Success(body) => {
                let clean = body.sanitized();
                match clean.violations() {
                    None => Outcome::Success(Validated(clean)),
                    Some(errors) => Outcome::Failure(Status { code: BAD_REQUEST }, Ok(errors)),
                }
            },
        }
    }

    /// The request's error cache once the guard has run: the errors of a
    /// failed validation are stored in it, and nothing else touches it.
    pub open spec fn cache_after<E, F>(
        decoded: Outcome<Json<D>, E, F>,
        cache: ErrorCache,
    ) -> ErrorCache {
        match decoded {
            Outcome::Success(body) => match body.sanitized().violations() {
                Some(errors) => cache.stored(errors),
                None => cache,
            },
            _ => cache,
        }
    }

    /// The last step of the guard, on a sanitized body and the verdict of its
    /// validation.
    ///
    /// `Ok` lets the body through and leaves the cache alone. `Err` stores a
    /// copy of the errors in the cache, in place of whatever it held, and fails
    /// the request with status 400 and the same errors.
    pub fn conclude<E, F>(
        cache: &mut ErrorCache,
        body: Json<D>,
        verdict: Result<(), ValidationErrors>,
    ) -> (outcome: Outcome<Self, Result<ValidationErrors, E>, F>)
        ensures
            match verdict {
                Ok(_) => {
                    &&& outcome matches Outcome::Success(value)
                    &&& value == Validated(body)
                    &&& *final(cache) == *old(cache)
                },
                Err(errors) => {
                    &&& outcome matches Outcome::Failure(status, error)
                    &&& status == (Status { code: 400 })
                    &&& error == Ok::<ValidationErrors, E>(errors)
                    &&& *final(cache) == old(cache).stored(errors)
                },
            },
    {
        match verdict {
            Ok(_) => Outcome::Success(Validated(body)),
            Err(errors) => {
                cache.store(errors.clone());
                Outcome::Failure(Status::bad_request(), Ok(errors))
            },
        }
    }

    /// Runs the guard on what the decoder made of the request's body.
    ///
    /// The outcome is `outcome_of(decoded)`, and the cache changes as
    /// `cache_after` says: only a failed validation writes to it.
    pub fn from_data<E, F>(cache: &mut ErrorCache, decoded: Outcome<Json<D>, E, F>) -> (outcome:
        Outcome<Self, Result<ValidationErrors, E>, F>)
        ensures
            outcome == Self::outcome_of(decoded),
            *final(cache) == Self::cache_after(decoded, *old(cache)),
    {
        match decoded {
            Outcome::Failure(status, error) => Outcome::Failure(status, Err(error)),
            Outcome::Forward(data) => Outcome::Forward(data),
            Outcome::Success(body) => {
                let mut body = body;
                body.sanitize();
                let verdict = body.validate();
                Self::conclude(cache, body, verdict)
            },
        }
    }

    /// A body whose sanitized form is valid succeeds with that sanitized form,
    /// and the cache stays as it was.
    pub proof fn lemma_valid_body_succeeds<E, F>(body: Json<D>, cache: ErrorCache)
        requires
            body.sanitized().violations() is None,
        ensures
            Self::outcome_of::<E, F>(Outcome::Success(body)) matches Outcome::Success(value)
                && value == Validated(body.sanitized()),
            Self::cache_after::<E, F>(Outcome::Success(body), cache) == cache,
    {
    }

    /// A body whose sanitized form is invalid fails with status 400, and the
    /// cache then holds exactly the errors that the failure carries.
    pub proof fn lemma_invalid_body_fails_and_is_cached<E, F>(
        body: Json<D>,
        cache: ErrorCache,
        errors: ValidationErrors,
    )
        requires
            body.sanitized().violations() == Some(errors),
        ensures
            Self::outcome_of::<E, F>(Outcome::Success(body)) matches Outcome::Failure(
                status,
                error,
            ) && status == (Status { code: 400 }) && error == Ok::<ValidationErrors, E>(errors),
            Self::cache_after::<E, F>(Outcome::Success(body), cache).held() == Some(errors),
    {
    }

    /// A forward is handed on unchanged and leaves the cache untouched.
    pub proof fn lemma_forward_is_passed_on<E, F>(data: F, cache: ErrorCache)
        ensures
            Self::outcome_of::<E, F>(Outcome::Forward(data)) matches Outcome::Forward(passed)
                && passed == data,
            Self::cache_after::<E, F>(Outcome::Forward(data), cache) == cache,
    {
    }

    /// A decode failure keeps the decoder's own status and error, and leaves
    /// the cache untouched.
    pub proof fn lemma_decode_failure_is_passed_on<E, F>(
        status: Status,
        error: E,
        cache: ErrorCache,
    )
        ensures
            Self::outcome_of::<E, F>(Outcome::Failure(status, error)) matches Outcome::Failure(
                passed,
                cause,
            ) && passed == status && cause == Err::<ValidationErrors, E>(error),
            Self::cache_after::<E, F>(Outcome::Failure(status, error), cache) == cache,
    {
    }

    /// Only a sanitized and valid value gets through: a success carries the
    /// sanitized form of a decoded body, and validation holds nothing against
    /// it.
    pub proof fn lemma_success_carries_a_clean_valid_value<E, F>(
        decoded: Outcome<Json<D>, E, F>,
    )
        requires
            Self::outcome_of(decoded) is Success,
        ensures
            decoded matches Outcome::Success(body) && Self::outcome_of(decoded) matches
                Outcome::Success(value) && value.0 == body.sanitized() && value.0.violations()
                is None,
    {
    }

    /// A cache that held no errors before the guard ran holds some afterwards
    /// if and only if validation failed, and then the request failed with
    /// the errors that the cache holds.
    pub proof fn lemma_cache_holds_errors_iff_validation_failed<E, F>(
        decoded: Outcome<Json<D>, E, F>,
        cache: ErrorCache,
    )
        requires
            cache.held() is None,
        ensures
            Self::cache_after(decoded, cache).held() is Some <==> (decoded matches Outcome::Success(
                body,
            ) && body.sanitized().violations() is Some),
            Self::cache_after(decoded, cache).held() matches Some(errors) ==> Self::outcome_of(
                decoded,
            ) matches Outcome::Failure(status, error) && status == (Status { code: 400 })
                && error == Ok::<ValidationErrors, E>(errors),
    {
    }

    /// Where sanitizing a sanitized body changes nothing, the guard lets its
    /// own success value through again, unchanged.
    pub proof fn lemma_success_value_passes_again<E, F>(body: Json<D>)
        requires
            body.sanitized().violations() is None,
            body.sanitized().sanitized() == body.sanitized(),
        ensures
            Self::outcome_of::<E, F>(Outcome::Success(body.sanitized())) == Self::outcome_of::<
                E,
                F,
            >(Outcome::Success(body)),
    {
    }
}

} // verus!
