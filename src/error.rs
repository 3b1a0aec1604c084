use vstd::prelude::*;
use vstd::string::*;

verus! {

/// Every failure the authentication core can report, one kind each.
#[derive(Clone, Copy, Debug, PartialEq, Eq, Structural)]
pub enum AuthError {
    /// A payload failed its shape validation (e.g. a malformed registration).
    ValidationError,
    /// The credential store could not be reached or failed unclassified.
    DbError,
    /// The store rejected the presented credentials or refresh token.
    WrongCredentials,
    /// The client identifier or secret was empty or malformed.
    MissingCredentials,
    /// The refresh token is structurally invalid or expired.
    InvalidRefreshToken,
    /// The signing operation failed.
    TokenCreation,
    /// The bearer token is missing, malformed, unverifiable or expired.
    InvalidToken,
    /// The requested record does not exist.
    NotFound,
    /// Any other server-side failure.
    InternalError,
}

/// The transport status code of each kind.
pub open spec fn status_of(e: AuthError) -> u16 {
    match e {
        AuthError::DbError | AuthError::TokenCreation | AuthError::InternalError => 500,
        AuthError::WrongCredentials | AuthError::InvalidRefreshToken | AuthError::InvalidToken => 401,
        AuthError::MissingCredentials | AuthError::ValidationError => 400,
        AuthError::NotFound => 404,
    }
}

/// The human-readable message of each kind.
pub open spec fn message_of(e: AuthError) -> Seq<char> {
    match e {
        AuthError::ValidationError => "Validation error"@,
        AuthError::DbError => "There was a database error"@,
        AuthError::WrongCredentials => "Wrong credentials"@,
        AuthError::MissingCredentials => "Missing credentials"@,
        AuthError::InvalidRefreshToken => "Invalid refresh token"@,
        AuthError::TokenCreation => "Unable to create token"@,
        AuthError::InvalidToken => "Invalid token"@,
        AuthError::NotFound => "Not found"@,
        AuthError::InternalError => "Internal server error"@,
    }
}

/// The structured response body of each kind: `{"error":"<message>"}`.
pub open spec fn body_of(e: AuthError) -> Seq<char> {
    "{\"error\":\""@ + message_of(e) + "\"}"@
}

impl AuthError {
    /// Status code of the kind: 500 for store and signing failures, 401 for
    /// rejected credentials and tokens, 400 for malformed input, 404 when not found.
    pub fn status_code(&self) -> (r: u16)
        ensures
            r == status_of(*self),
    {
        match self {
            AuthError::DbError | AuthError::TokenCreation | AuthError::InternalError => 500,
            AuthError::WrongCredentials | AuthError::InvalidRefreshToken | AuthError::InvalidToken => 401,
            AuthError::MissingCredentials | AuthError::ValidationError => 400,
            AuthError::NotFound => 404,
        }
    }

    /// The kind's message.
    pub fn message(&self) -> (r: String)
        ensures
            r@ == message_of(*self),
    {
        let m = match self {
            AuthError::ValidationError => "Validation error",
            AuthError::DbError => "There was a database error",
            AuthError::WrongCredentials => "Wrong credentials",
            AuthError::MissingCredentials => "Missing credentials",
            AuthError::InvalidRefreshToken => "Invalid refresh token",
            AuthError::TokenCreation => "Unable to create token",
            AuthError::InvalidToken => "Invalid token",
            AuthError::NotFound => "Not found",
            AuthError::InternalError => "Internal server error",
        };
        String::from_str(m)
    }

    /// The response body: the message under the key `error`.
    pub fn body(&self) -> (r: String)
        ensures
            r@ == body_of(*self),
    {
        let mut out = String::from_str("{\"error\":\"");
        let m = self.message();
        out.append(m.as_str());
        out.append("\"}");
        out
    }
}

} // verus!
