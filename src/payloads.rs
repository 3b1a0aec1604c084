use vstd::prelude::*;
use vstd::string::*;
use crate::error::AuthError;

verus! {

/// Whether a text has the shape of an e-mail address, as the validator crate
/// judges it.
pub uninterp spec fn email_shaped(s: Seq<char>) -> bool;

/// Relies on `validator::ValidateEmail::validate_email` for `&str` (the HTML5
/// e-mail shape, part lengths, IDN domains): the verdict depends on the text
/// alone, and an empty text or one without `@` is refused.
#[verifier::external_body]
fn is_email(s: &str) -> (r: bool)
    ensures
        r == email_shaped(s@),
        s@.len() == 0 ==> !r,
        !(exists|i: int| 0 <= i < s@.len() && s@[i] == '@') ==> !r,
{
    validator::ValidateEmail::validate_email(&s)
}

/// The credential a client presents to be authorized.
#[derive(Clone, Debug)]
pub struct AuthPayload {
    pub client_id: String,
    pub client_secret: String,
}

/// Whether a credential may be shown to the store: an e-mail-shaped,
/// non-empty identifier and a non-empty secret.
pub open spec fn credentials_well_formed(client_id: Seq<char>, client_secret: Seq<char>) -> bool {
    email_shaped(client_id) && client_id.len() >= 1 && client_secret.len() >= 1
}

impl AuthPayload {
    /// Checks the credential's shape; a violation is `MissingCredentials`.
    pub fn validate(&self) -> (r: Result<(), AuthError>)
        ensures
            credentials_well_formed(self.client_id@, self.client_secret@) ==> r is Ok,
            !credentials_well_formed(self.client_id@, self.client_secret@) ==> r == Err::<
                (),
                AuthError,
            >(AuthError::MissingCredentials),
    {
        if is_email(self.client_id.as_str()) && !self.client_id.as_str().is_empty()
            && !self.client_secret.as_str().is_empty() {
            Ok(())
        } else {
            Err(AuthError::MissingCredentials)
        }
    }
}

/// Fewest characters a new password may have.
pub const MIN_PASSWORD_CHARS: usize = 8;

/// A registration request.
#[derive(Clone, Debug)]
pub struct RegisterPayload {
    pub first_name: Option<String>,
    pub last_name: Option<String>,
    pub email: String,
    pub password: String,
}

/// Whether a registration may be shown to the store: an e-mail-shaped address
/// and a password of at least eight characters.
pub open spec fn registration_well_formed(email: Seq<char>, password: Seq<char>) -> bool {
    email_shaped(email) && password.len() >= MIN_PASSWORD_CHARS
}

impl RegisterPayload {
    /// Checks the registration's shape; a violation is `ValidationError`.
    pub fn validate(&self) -> (r: Result<(), AuthError>)
        ensures
            registration_well_formed(self.email@, self.password@) ==> r is Ok,
            !registration_well_formed(self.email@, self.password@) ==> r == Err::<(), AuthError>(
                AuthError::ValidationError,
            ),
    {
        if is_email(self.email.as_str()) && self.password.as_str().unicode_len()
            >= MIN_PASSWORD_CHARS {
            Ok(())
        } else {
            Err(AuthError::ValidationError)
        }
    }
}

/// The session response of a successful authorization or revalidation.
#[derive(Clone, Debug)]
pub struct AuthBody {
    /// Always `Bearer`.
    pub token_type: String,
    pub access_token: String,
    /// The access token's expiry, in epoch milliseconds.
    pub expires_in: i64,
    pub refresh_token: String,
    /// The refresh token's expiry, in epoch milliseconds.
    pub refresh_token_expires: i64,
}

impl AuthBody {
    /// A `Bearer` session response.
    pub fn new(
        access_token: String,
        expires_in: i64,
        refresh_token: String,
        refresh_token_expires: i64,
    ) -> (r: AuthBody)
        ensures
            r.token_type@ == "Bearer"@,
            r.access_token@ == access_token@,
            r.expires_in == expires_in,
            r.refresh_token@ == refresh_token@,
            r.refresh_token_expires == refresh_token_expires,
    {
        AuthBody {
            token_type: String::from_str("Bearer"),
            access_token,
            expires_in,
            refresh_token,
            refresh_token_expires,
        }
    }
}

} // verus!
