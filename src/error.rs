use vstd::prelude::*;
use vstd::string::StringExecFns;

verus! {

/// What went wrong inside the server; never shown to a client beyond a fixed message.
#[derive(Debug, Clone, Copy, PartialEq, Eq, Structural)]
pub enum InternalCause {
    /// The password could not be hashed.
    Hashing,
    /// A stored password hash could not be checked (for example it is malformed).
    HashCheck,
    /// The credential store failed for a reason other than a uniqueness conflict.
    Store,
    /// No token could be made: the clock is outside the range a token can carry.
    TokenSigning,
}

/// How the store can refuse a read or a write.
#[derive(Debug, Clone, Copy, PartialEq, Eq, Structural)]
pub enum StoreFailure {
    /// The email is already taken (a uniqueness conflict reported by the store).
    UniqueViolation,
    /// Any other failure of the store.
    Other,
}

/// Which step of authenticating a request failed.
#[derive(Debug, Clone, Copy, PartialEq, Eq, Structural)]
pub enum AuthFailure {
    /// The authorization header is missing or not of the form `Bearer <token>`.
    NoToken,
    /// The token is malformed, its signature does not check out, or it has expired;
    /// these are deliberately not told apart.
    InvalidToken,
    /// The token's subject is not a UUID.
    InvalidSubject,
}

/// Failures of the authentication core, one per category a client may see.
#[derive(Debug, Clone, Copy, PartialEq, Eq, Structural)]
pub enum AuthError {
    /// A user with this email already exists.
    DuplicateEmail,
    /// Unknown email or wrong password; the two are deliberately not told apart.
    InvalidCredentials,
    /// The request carries no usable bearer token; the step that failed is kept.
    Unauthenticated(AuthFailure),
    /// A server-side failure.
    Internal(InternalCause),
}

pub open spec fn status_of(e: AuthError) -> u16 {
    match e {
        AuthError::DuplicateEmail => 409,
        AuthError::InvalidCredentials => 400,
        AuthError::Unauthenticated(_) => 401,
        AuthError::Internal(_) => 500,
    }
}

pub open spec fn message_of(e: AuthError) -> Seq<char> {
    match e {
        AuthError::DuplicateEmail => "User with that email already exists"@,
        AuthError::InvalidCredentials => "Invalid email or password"@,
        AuthError::Unauthenticated(AuthFailure::NoToken) => "No valid auth token found"@,
        AuthError::Unauthenticated(AuthFailure::InvalidToken) => "Invalid token"@,
        AuthError::Unauthenticated(AuthFailure::InvalidSubject) => "Invalid token subject"@,
        AuthError::Internal(InternalCause::Hashing) => "Failed to hash password"@,
        AuthError::Internal(InternalCause::TokenSigning) => "Failed to create token"@,
        AuthError::Internal(_) => "Something went wrong"@,
    }
}

/// The JSON envelope of an error response: `{"status":"error","message":...}`.
pub open spec fn error_envelope(message: Seq<char>) -> Seq<char> {
    "{\"status\":\"error\",\"message\":\""@ + message + "\"}"@
}

impl AuthError {
    /// The HTTP status code of this error.
    pub fn status(&self) -> (r: u16)
        ensures
            r == status_of(*self),
    {
        match self {
            AuthError::DuplicateEmail => 409,
            AuthError::InvalidCredentials => 400,
            AuthError::Unauthenticated(_) => 401,
            AuthError::Internal(_) => 500,
        }
    }

    /// The fixed message shown to the client.
    pub fn message(&self) -> (r: &'static str)
        ensures
            r@ == message_of(*self),
    {
        match self {
            AuthError::DuplicateEmail => "User with that email already exists",
            AuthError::InvalidCredentials => "Invalid email or password",
            AuthError::Unauthenticated(AuthFailure::NoToken) => "No valid auth token found",
            AuthError::Unauthenticated(AuthFailure::InvalidToken) => "Invalid token",
            AuthError::Unauthenticated(AuthFailure::InvalidSubject) => "Invalid token subject",
            AuthError::Internal(InternalCause::Hashing) => "Failed to hash password",
            AuthError::Internal(InternalCause::TokenSigning) => "Failed to create token",
            AuthError::Internal(_) => "Something went wrong",
        }
    }

    /// The response body sent for this error.
    pub fn body(&self) -> (r: String)
        ensures
            r@ == error_envelope(message_of(*self)),
    {
        let mut s = String::from_str("{\"status\":\"error\",\"message\":\"");
        s.append(self.message());
        s.append("\"}");
        s
    }
}

} // verus!
