use vstd::prelude::*;

verus! {

/// The failures a request can surface, as typed values.
///
/// Bad credentials at sign-in are reported as `AuthenticationFailure`
/// without saying whether the username or the password was wrong.
/// A mutation on an entity the session's user may not touch, or that does
/// not exist, is reported as `AuthorizationFailure`: the two situations are
/// deliberately indistinguishable.  Queries signal a plain miss by an
/// absent result, never by an error.
#[derive(Clone, Copy, Debug, PartialEq, Eq, Structural)]
pub enum ApiError {
    /// Bad credentials at sign-in; never says which part was wrong.
    AuthenticationFailure,
    /// Missing or invalid session token, or a mutation the session's user
    /// may not perform (including on an entity that does not exist).
    AuthorizationFailure,
    /// A rejected input: password confirmation mismatch or a taken username.
    ValidationFailure,
    /// The store could not complete the write, e.g. a fresh identifier
    /// collided with a stored one.
    SystemFailure,
}

impl ApiError {
    /// A short human-readable description of the failure.
    pub fn text(&self) -> (r: &'static str)
        ensures
            *self is AuthenticationFailure ==> r@ == "invalid username or password"@,
            *self is AuthorizationFailure ==> r@ == "invalid auth token or permissions"@,
            *self is ValidationFailure ==> r@ == "invalid input"@,
            *self is SystemFailure ==> r@ == "storage failure"@,
    {
        match self {
            ApiError::AuthenticationFailure => "invalid username or password",
            ApiError::AuthorizationFailure => "invalid auth token or permissions",
            ApiError::ValidationFailure => "invalid input",
            ApiError::SystemFailure => "storage failure",
        }
    }
}

} // verus!
