use vstd::prelude::*;
use vstd::string::*;
use crate::claims::ACCESS_TOKEN_LIFETIME_MS;
use crate::error::AuthError;
use crate::keys::Keys;
use crate::payloads::{AuthBody, AuthPayload, credentials_well_formed};
use crate::role::{Role, role_of_label};
use crate::clock::now_millis;
use crate::issuer::{Identity, issuable, issue, issued_token};

verus! {

/// The value of a UUID text, as the uuid crate reads it.
pub uninterp spec fn uuid_value(s: Seq<char>) -> Option<u128>;

/// Relies on `uuid::Uuid::parse_str` (simple, hyphenated, braced or URN form)
/// and `Uuid::as_u128`: the value depends on the text alone, and an empty text
/// is refused.
#[verifier::external_body]
fn parse_uuid(s: &str) -> (r: Option<u128>)
    ensures
        r == uuid_value(s@),
        s@.len() == 0 ==> r is None,
{
    match uuid::Uuid::parse_str(s) {
        Ok(u) => Some(u.as_u128()),
        Err(_) => None,
    }
}

/// A call the credential store is asked to make.
#[derive(Clone, Debug)]
pub enum StoreQuery {
    /// Check an identifier and secret.
    Authenticate { client_id: String, client_secret: String },
    /// Check a refresh token, given as its 128-bit value.
    ValidateRefreshToken { refresh_token: u128 },
}

/// What the credential store hands back on success: the subject's role label
/// and identifier, and the (possibly rotated) refresh token with its expiry in
/// epoch milliseconds.
#[derive(Clone, Debug)]
pub struct Grant {
    pub role: String,
    pub user_id: String,
    pub refresh_token: String,
    pub refresh_token_expires: i64,
}

/// First step of authorization: a well-formed credential becomes the store
/// query that checks it; anything else is `MissingCredentials`, and then there
/// is no query, so the store is never consulted.
pub fn begin_authorize(payload: &AuthPayload) -> (r: Result<StoreQuery, AuthError>)
    ensures
        credentials_well_formed(payload.client_id@, payload.client_secret@) ==> (r matches Ok(
            StoreQuery::Authenticate { client_id, client_secret },
        ) && client_id@ == payload.client_id@ && client_secret@ == payload.client_secret@),
        !credentials_well_formed(payload.client_id@, payload.client_secret@) ==> r == Err::<
            StoreQuery,
            AuthError,
        >(AuthError::MissingCredentials),
        payload.client_id@.len() == 0 || payload.client_secret@.len() == 0 ==> r == Err::<
            StoreQuery,
            AuthError,
        >(AuthError::MissingCredentials),
{
    match payload.validate() {
        Ok(()) => Ok(
            StoreQuery::Authenticate {
                client_id: payload.client_id.clone(),
                client_secret: payload.client_secret.clone(),
            },
        ),
        Err(e) => Err(e),
    }
}

/// First step of revalidation: a refresh token in UUID form becomes the store
/// query that checks it; any other text is `InvalidRefreshToken`.
pub fn begin_revalidate(refresh_token: &str) -> (r: Result<StoreQuery, AuthError>)
    ensures
        match uuid_value(refresh_token@) {
            Some(v) => r matches Ok(StoreQuery::ValidateRefreshToken { refresh_token }) && refresh_token == v,
            None => r == Err::<StoreQuery, AuthError>(AuthError::InvalidRefreshToken),
        },
{
    match parse_uuid(refresh_token) {
        Some(v) => Ok(StoreQuery::ValidateRefreshToken { refresh_token: v }),
        None => Err(AuthError::InvalidRefreshToken),
    }
}

/// The session response a grant earns at `now` under a secret: a `Bearer`
/// token for the grant's subject and role, its expiry, and the grant's refresh
/// token passed through.
pub open spec fn is_session_for(b: AuthBody, g: Grant, secret: Seq<u8>, now: int) -> bool {
    &&& b.token_type@ == "Bearer"@
    &&& b.access_token@.len() > 0
    &&& b.access_token@ == issued_token(g.user_id@, role_of_label(g.role@), now, secret)
    &&& b.expires_in == now + ACCESS_TOKEN_LIFETIME_MS
    &&& b.refresh_token@ == g.refresh_token@
    &&& b.refresh_token_expires == g.refresh_token_expires
}

/// Last step of authorization and revalidation at `now`: any store failure is
/// `WrongCredentials`; a grant earns its session response, unless signing
/// fails, which is `TokenCreation`.
pub fn complete_session_at(outcome: Option<Grant>, keys: &Keys, now: i64) -> (r: Result<
    AuthBody,
    AuthError,
>)
    ensures
        outcome is None ==> r == Err::<AuthBody, AuthError>(AuthError::WrongCredentials),
        outcome is Some ==> {
            let g = outcome->0;
            &&& r is Err ==> r->Err_0 == AuthError::TokenCreation
            &&& issuable(g.user_id@, now as int) ==> r is Ok
            &&& !issuable(g.user_id@, now as int) ==> r is Err
            &&& r is Ok ==> is_session_for(r->Ok_0, g, keys@, now as int)
        },
{
    let g = match outcome {
        Some(g) => g,
        None => {
            return Err(AuthError::WrongCredentials);
        },
    };
    let identity = Identity { subject_id: g.user_id.clone(), role: Role::from_label(g.role.as_str()) };
    match issue(&identity, keys, now) {
        Ok((token, claims)) => Ok(
            AuthBody::new(token, claims.exp, g.refresh_token, g.refresh_token_expires),
        ),
        Err(e) => Err(e),
    }
}

/// Last step of authorization and revalidation against the clock; as
/// `complete_session_at` at the time read.
pub fn complete_session(outcome: Option<Grant>, keys: &Keys) -> (r: Result<AuthBody, AuthError>)
    ensures
        outcome is None ==> r == Err::<AuthBody, AuthError>(AuthError::WrongCredentials),
        outcome is Some ==> {
            let g = outcome->0;
            &&& r is Err ==> r->Err_0 == AuthError::TokenCreation
            &&& r is Ok ==> exists|now: i64| #[trigger]
                is_session_for(r->Ok_0, g, keys@, now as int)
            &&& r is Err ==> exists|now: i64| !#[trigger] issuable(g.user_id@, now as int)
        },
{
    let now = now_millis();
    let r = complete_session_at(outcome, keys, now);
    proof {
        if r is Err && outcome is Some {
            assert(!issuable(outcome->0.user_id@, now as int));
        }
    }
    r
}

} // verus!
