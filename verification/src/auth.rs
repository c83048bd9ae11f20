//! Authorisation of uploads: a request passes only with the configured
//! `Authorization` header.

use vstd::prelude::*;
use vstd::utf8::encode_utf8;

verus! {

/// What a service must be wrapped in so that it asks for authorisation.
pub struct AuthRequirement {
    key: &'static str,
}

/// Why a request did not pass.
#[derive(Debug, Clone, Copy, PartialEq, Eq, Structural)]
pub enum AuthError {
    /// The request carries no `Authorization` header.
    NoHeader,
    /// The header is not the configured key.
    BadAuth,
}

/// A service together with the key that its callers must present.
pub struct AuthMiddleware<S> {
    service: S,
    key: &'static str,
}

/// `constant_time_eq::constant_time_eq` says whether two byte strings are
/// equal, in a time that depends on their lengths alone.
pub assume_specification[ constant_time_eq::constant_time_eq ](a: &[u8], b: &[u8]) -> (same: bool)
    ensures
        same == (a@ == b@),
;

/// What a request with the given `Authorization` header is owed under `key`.
pub open spec fn verdict(key: Seq<char>, header: Option<Seq<u8>>) -> Result<(), AuthError> {
    match header {
        None => Err(AuthError::NoHeader),
        Some(bytes) => if bytes == encode_utf8(key) {
            Ok(())
        } else {
            Err(AuthError::BadAuth)
        },
    }
}

impl AuthRequirement {
    /// Requires `key` of every request.
    pub fn new(key: &'static str) -> (requirement: Self)
        ensures
            requirement.key()@ == key@,
    {
        Self { key }
    }

    /// The key that requests must present.
    pub closed spec fn key(&self) -> &'static str {
        self.key
    }

    /// Wraps `service`, so that it is reached only with the key.
    pub fn new_transform<S>(&self, service: S) -> (middleware: AuthMiddleware<S>)
        ensures
            middleware.key()@ == self.key()@,
            middleware.inner() == service,
    {
        AuthMiddleware { service, key: self.key }
    }
}

impl<S> AuthMiddleware<S> {
    /// The key that requests must present.
    pub closed spec fn key(&self) -> &'static str {
        self.key
    }

    /// The wrapped service, as a value.
    pub closed spec fn inner(&self) -> S {
        self.service
    }

    /// The wrapped service, which a request that passed is handed to.
    pub fn service(&self) -> (service: &S)
        ensures
            *service == self.inner(),
    {
        &self.service
    }

    /// Decides whether a request passes, by the bytes of its `Authorization`
    /// header: a missing header is one error, any header but the key, byte for
    /// byte, is another.
    pub fn check(&self, header: Option<&[u8]>) -> (outcome: Result<(), AuthError>)
        ensures
            outcome == verdict(
                self.key()@,
                match header {
                    Some(bytes) => Some(bytes@),
                    None => None,
                },
            ),
    {
        match header {
            None => Err(AuthError::NoHeader),
            Some(bytes) => {
                if constant_time_eq::constant_time_eq(bytes, self.key.as_bytes()) {
                    Ok(())
                } else {
                    Err(AuthError::BadAuth)
                }
            },
        }
    }
}

} // verus!
