use vstd::prelude::*;
use crate::claims::{Claims, claims_at, claims_wf, payload_text, ACCESS_TOKEN_LIFETIME_MS};
use crate::error::AuthError;
use crate::jwt::{hs512_token, sign_hs512};
use crate::keys::Keys;
use crate::role::Role;
use crate::text::{is_id, is_id_text};

verus! {

/// A verified identity handed over by the credential store.
#[derive(Clone, Debug)]
pub struct Identity {
    pub subject_id: String,
    pub role: Role,
}

/// Whether claims can be issued for a subject at `now`: the subject is an
/// identifier, `now` is an `i64` and the expiry fits in one too.
pub open spec fn issuable(sub: Seq<char>, now: int) -> bool {
    is_id_text(sub) && i64::MIN <= now <= i64::MAX - ACCESS_TOKEN_LIFETIME_MS
}

/// The token a subject and role get at `now` under a secret.
pub open spec fn issued_token(sub: Seq<char>, role: Role, now: int, secret: Seq<u8>) -> Seq<char> {
    hs512_token(payload_text(claims_at(sub, role, now)), secret)
}

/// Issues an access token for an identity at `now`: claims expiring one
/// lifetime later, signed with the key material. Any failure is `TokenCreation`.
pub fn issue(identity: &Identity, keys: &Keys, now: i64) -> (r: Result<(String, Claims), AuthError>)
    ensures
        !issuable(identity.subject_id@, now as int) ==> r == Err::<(String, Claims), AuthError>(
            AuthError::TokenCreation,
        ),
        issuable(identity.subject_id@, now as int) ==> r is Ok,
        r is Err ==> r->Err_0 == AuthError::TokenCreation,
        r is Ok ==> {
            &&& r->Ok_0.0@.len() > 0
            &&& issuable(identity.subject_id@, now as int)
            &&& r->Ok_0.1@ == claims_at(identity.subject_id@, identity.role, now as int)
            &&& r->Ok_0.0@ == issued_token(identity.subject_id@, identity.role, now as int, keys@)
        },
{
    if !is_id(identity.subject_id.as_str()) || now > i64::MAX - ACCESS_TOKEN_LIFETIME_MS {
        return Err(AuthError::TokenCreation);
    }
    let claims = Claims::new(identity.subject_id.clone(), identity.role, now);
    let payload = claims.to_payload();
    assert(claims_wf(claims@) && payload_text(claims@) == payload@);
    match sign_hs512(payload.as_str(), keys.secret()) {
        Ok(token) => Ok((token, claims)),
        Err(_) => Err(AuthError::TokenCreation),
    }
}

} // verus!
