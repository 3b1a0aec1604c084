use vstd::prelude::*;
use vstd::string::*;
use crate::claims::{
    ClaimsView, ACCESS_TOKEN_LIFETIME_MS, claims_at, claims_of_payload, claims_wf, payload_text,
};
use crate::error::{AuthError, status_of};
use crate::role::{Role, role_of_label};
use crate::session::{Grant, is_session_for};
use crate::payloads::{AuthBody, credentials_well_formed};
use crate::text::{int_text, lemma_int_text};
use crate::extractor::{
    accepted_claims, bearer_header, bearer_token_of, bears_token, extracted_claims,
    presented_payload, scheme_lower, scheme_upper,
};
use crate::issuer::issuable;
use crate::jwt::hs512_token;

verus! {

proof fn lemma_int_text_injective(a: int, b: int)
    requires
        i64::MIN <= a <= i64::MAX,
        i64::MIN <= b <= i64::MAX,
        int_text(a) == int_text(b),
    ensures
        a == b,
{
    lemma_int_text(a);
    lemma_int_text(b);
}

/// Distinct well-formed claims have distinct payload texts.
pub proof fn lemma_payload_injective(c: ClaimsView, d: ClaimsView)
    requires
        claims_wf(c),
        claims_wf(d),
        payload_text(c) == payload_text(d),
    ensures
        c == d,
{
    crate::claims::lemma_payload_layout(c);
    crate::claims::lemma_payload_layout(d);
    let p = payload_text(c);
    let lc = c.sub.len() as int;
    let ld = d.sub.len() as int;
    if lc < ld {
        assert(p[8 + lc] != '"');
    }
    if ld < lc {
        assert(p[8 + ld] != '"');
    }
    assert(c.sub =~= d.sub);
    assert(c.role == d.role);
    lemma_int_text_injective(c.exp, d.exp);
}

/// Well-formed claims are read back unchanged from their payload text.
pub proof fn lemma_payload_round_trip(c: ClaimsView)
    requires
        claims_wf(c),
    ensures
        claims_of_payload(payload_text(c)) == Some(c),
{
    let p = payload_text(c);
    assert(claims_wf(c) && payload_text(c) == p);
    let d = choose|d: ClaimsView| claims_wf(d) && #[trigger] payload_text(d) == p;
    lemma_payload_injective(c, d);
}

/// Claims issued at `now` are granted back, unchanged, by the extractor's
/// decision on their payload at any instant before they expire: same
/// subject, same role.
pub proof fn lemma_issued_claims_accepted(sub: Seq<char>, role: Role, now: int, later: int)
    requires
        issuable(sub, now),
        later < now + ACCESS_TOKEN_LIFETIME_MS,
    ensures
        accepted_claims(payload_text(claims_at(sub, role, now)), later) == Some(
            claims_at(sub, role, now),
        ),
        claims_at(sub, role, now).sub == sub,
        claims_at(sub, role, now).role == role,
{
    lemma_payload_round_trip(claims_at(sub, role, now));
}

/// The header `Bearer <token>` carries exactly `token`, for any non-empty token.
pub proof fn lemma_bearer_header(token: Seq<char>)
    requires
        token.len() > 0,
    ensures
        bearer_token_of(bearer_header(token)) == Some(token),
{
    let h = bearer_header(token);
    assert forall|i: int| 0 <= i < 6 implies #[trigger] h[i] == scheme_upper()[i] || h[i]
        == scheme_lower()[i] by {}
    assert(h.subrange(7, h.len() as int) =~= token);
}

/// A session granted at `now` is a `Bearer` session whose access token, sent
/// back as `Bearer <token>`, carries the signed payload of well-formed claims
/// for the grant's subject and role that have not expired at `now`; by the
/// contract of `extract_at`, the extractor then grants exactly those claims.
pub proof fn lemma_session_token_accepted(b: AuthBody, g: Grant, secret: Seq<u8>, now: int)
    requires
        is_session_for(b, g, secret, now),
        issuable(g.user_id@, now),
    ensures
        b.token_type@ == "Bearer"@,
        claims_wf(claims_at(g.user_id@, role_of_label(g.role@), now)),
        now < claims_at(g.user_id@, role_of_label(g.role@), now).exp,
        bears_token(
            Some(bearer_header(b.access_token@)),
            hs512_token(payload_text(claims_at(g.user_id@, role_of_label(g.role@), now)), secret),
        ),
        b.access_token@ == hs512_token(
            payload_text(claims_at(g.user_id@, role_of_label(g.role@), now)),
            secret,
        ),
        accepted_claims(payload_text(claims_at(g.user_id@, role_of_label(g.role@), now)), now)
            == Some(claims_at(g.user_id@, role_of_label(g.role@), now)),
{
    lemma_issued_claims_accepted(g.user_id@, role_of_label(g.role@), now, now);
    lemma_bearer_header(b.access_token@);
}

/// A token whose verified claims have expired by `now` is refused: the
/// extractor grants nothing, which is `InvalidToken`.
pub proof fn lemma_expired_token_refused(header: Option<Seq<char>>, secret: Seq<u8>, now: int)
    requires
        presented_payload(header, secret) is Some,
        claims_of_payload(presented_payload(header, secret)->0) is Some,
        now >= claims_of_payload(presented_payload(header, secret)->0)->0.exp,
    ensures
        extracted_claims(header, secret, now) is None,
{
}

/// A credential with an empty secret is never well-formed, so authorization
/// refuses it before any store call.
pub proof fn lemma_empty_secret_refused(client_id: Seq<char>, client_secret: Seq<char>)
    requires
        client_secret.len() == 0,
    ensures
        !credentials_well_formed(client_id, client_secret),
{
}

/// Rejections by the store and malformed refresh tokens are reported as 401.
pub proof fn lemma_rejections_unauthorized()
    ensures
        status_of(AuthError::WrongCredentials) == 401,
        status_of(AuthError::InvalidRefreshToken) == 401,
        status_of(AuthError::MissingCredentials) == 400,
{
}

} // verus!
