use vstd::prelude::*;
use vstd::string::*;
use crate::claims::{Claims, ClaimsView, claims_of_payload, claims_wf, payload_text};
use crate::jwt::hs512_token;
use crate::laws::lemma_payload_round_trip;
use crate::clock::now_millis;
use crate::error::AuthError;
use crate::jwt::{hs512_payload, verify_hs512};
use crate::keys::Keys;

verus! {

pub open spec fn scheme_upper() -> Seq<char> {
    seq!['B', 'E', 'A', 'R', 'E', 'R']
}

pub open spec fn scheme_lower() -> Seq<char> {
    seq!['b', 'e', 'a', 'r', 'e', 'r']
}

/// The token of an `Authorization` header value: `Bearer` (in any letter case),
/// one space, then a non-empty token.
pub open spec fn bearer_token_of(h: Seq<char>) -> Option<Seq<char>> {
    if h.len() > 7 && h[6] == ' ' && (forall|i: int|
        0 <= i < 6 ==> #[trigger] h[i] == scheme_upper()[i] || h[i] == scheme_lower()[i]) {
        Some(h.subrange(7, h.len() as int))
    } else {
        None
    }
}

/// The token carried by an `Authorization` header value; see `bearer_token_of`.
pub fn bearer_token(header: &str) -> (r: Option<&str>)
    ensures
        match bearer_token_of(header@) {
            Some(t) => r is Some && r->0@ == t,
            None => r is None,
        },
{
    proof {
        reveal_strlit("BEARER");
        reveal_strlit("bearer");
    }
    let upper = "BEARER";
    let lower = "bearer";
    let n = header.unicode_len();
    if n <= 7 || header.get_char(6) != ' ' {
        return None;
    }
    let mut i: usize = 0;
    while i < 6
        invariant
            n == header@.len(),
            n > 7,
            i <= 6,
            upper@ == scheme_upper(),
            lower@ == scheme_lower(),
            forall|j: int| 0 <= j < i ==> #[trigger] header@[j] == scheme_upper()[j] || header@[j]
                == scheme_lower()[j],
        decreases 6 - i,
    {
        let c = header.get_char(i);
        if c != upper.get_char(i) && c != lower.get_char(i) {
            return None;
        }
        i = i + 1;
    }
    Some(header.substring_char(7, n))
}

/// The `Authorization` header value that presents `token`: `Bearer <token>`.
pub open spec fn bearer_header(token: Seq<char>) -> Seq<char> {
    seq!['B', 'e', 'a', 'r', 'e', 'r', ' '] + token
}

/// Whether an optional header value is a bearer header carrying `token`.
pub open spec fn bears_token(header: Option<Seq<char>>, token: Seq<char>) -> bool {
    match header {
        Some(h) => bearer_token_of(h) == Some(token),
        None => false,
    }
}

/// The view of an optional header value.
pub open spec fn header_view(h: Option<&str>) -> Option<Seq<char>> {
    match h {
        Some(s) => Some(s@),
        None => None,
    }
}

/// The payload that a request's `Authorization` header carries under a
/// secret: present only for a well-formed bearer header whose token verifies.
pub open spec fn presented_payload(header: Option<Seq<char>>, secret: Seq<u8>) -> Option<
    Seq<char>,
> {
    match header {
        Some(h) => match bearer_token_of(h) {
            Some(t) => hs512_payload(t, secret),
            None => None,
        },
        None => None,
    }
}

/// The claims a verified payload grants at `now`: the claims it is the text
/// of, while they have not expired.
pub open spec fn accepted_claims(payload: Seq<char>, now: int) -> Option<ClaimsView> {
    match claims_of_payload(payload) {
        Some(c) => if now < c.exp {
            Some(c)
        } else {
            None
        },
        None => None,
    }
}

/// The claims a request is granted at `now`; nothing means `InvalidToken`.
pub open spec fn extracted_claims(header: Option<Seq<char>>, secret: Seq<u8>, now: int) -> Option<
    ClaimsView,
> {
    match presented_payload(header, secret) {
        Some(p) => accepted_claims(p, now),
        None => None,
    }
}

/// Decides on a verified payload at `now`: its claims while they are
/// unexpired, `InvalidToken` for expired claims or any other text.
pub fn claims_from_payload(payload: &str, now: i64) -> (r: Result<Claims, AuthError>)
    ensures
        match accepted_claims(payload@, now as int) {
            Some(c) => r is Ok && r->Ok_0@ == c,
            None => r == Err::<Claims, AuthError>(AuthError::InvalidToken),
        },
{
    match Claims::from_payload(payload) {
        Some(c) => {
            if now < c.exp {
                Ok(c)
            } else {
                Err(AuthError::InvalidToken)
            }
        },
        None => Err(AuthError::InvalidToken),
    }
}

/// The payload carried by an optional `Authorization` header value, once the
/// token's signature has been verified.
fn verified_payload(authorization: Option<&str>, keys: &Keys) -> (r: Option<String>)
    ensures
        match presented_payload(header_view(authorization), keys@) {
            Some(p) => r is Some && r->0@ == p,
            None => r is None,
        },
        forall|c: ClaimsView|
            claims_wf(c) && bears_token(header_view(authorization), #[trigger] hs512_token(
                payload_text(c),
                keys@,
            )) ==> r is Some && r->0@ == payload_text(c),
{
    let header = match authorization {
        Some(h) => h,
        None => {
            return None;
        },
    };
    let token = match bearer_token(header) {
        Some(t) => t,
        None => {
            return None;
        },
    };
    match verify_hs512(token, keys.secret()) {
        Ok(p) => Some(p),
        Err(_) => None,
    }
}

/// Validates a request's `Authorization` header at `now`: the claims of a
/// bearer token signed with the key material, unexpired at `now`, or
/// `InvalidToken`.
pub fn extract_at(authorization: Option<&str>, keys: &Keys, now: i64) -> (r: Result<Claims, AuthError>)
    ensures
        match extracted_claims(header_view(authorization), keys@, now as int) {
            Some(c) => r is Ok && r->Ok_0@ == c,
            None => r == Err::<Claims, AuthError>(AuthError::InvalidToken),
        },
        forall|c: ClaimsView|
            claims_wf(c) && bears_token(header_view(authorization), #[trigger] hs512_token(
                payload_text(c),
                keys@,
            )) ==> (if now < c.exp {
                r is Ok && r->Ok_0@ == c
            } else {
                r == Err::<Claims, AuthError>(AuthError::InvalidToken)
            }),
{
    let r = match verified_payload(authorization, keys) {
        Some(p) => claims_from_payload(p.as_str(), now),
        None => Err(AuthError::InvalidToken),
    };
    proof {
        assert forall|c: ClaimsView|
            claims_wf(c) && bears_token(header_view(authorization), #[trigger] hs512_token(
                payload_text(c),
                keys@,
            )) implies (if now < c.exp {
                r is Ok && r->Ok_0@ == c
            } else {
                r == Err::<Claims, AuthError>(AuthError::InvalidToken)
            }) by {
            lemma_payload_round_trip(c);
        }
    }
    r
}

/// Validates a request's `Authorization` header against the clock: a missing,
/// malformed or unverifiable token is `InvalidToken`; granted claims are those
/// of the verified payload; every failure is `InvalidToken`.
pub fn extract(authorization: Option<&str>, keys: &Keys) -> (r: Result<Claims, AuthError>)
    ensures
        presented_payload(header_view(authorization), keys@) is None ==> r == Err::<
            Claims,
            AuthError,
        >(AuthError::InvalidToken),
        r is Err ==> r->Err_0 == AuthError::InvalidToken,
        r is Ok ==> presented_payload(header_view(authorization), keys@) is Some
            && claims_of_payload(presented_payload(header_view(authorization), keys@)->0) == Some(
            r->Ok_0@,
        ),
        exists|now: i64|
            match #[trigger] extracted_claims(header_view(authorization), keys@, now as int) {
                Some(c) => r is Ok && r->Ok_0@ == c,
                None => r == Err::<Claims, AuthError>(AuthError::InvalidToken),
            },
{
    let now = now_millis();
    let r = extract_at(authorization, keys, now);
    assert(match extracted_claims(header_view(authorization), keys@, now as int) {
        Some(c) => r is Ok && r->Ok_0@ == c,
        None => r == Err::<Claims, AuthError>(AuthError::InvalidToken),
    });
    r
}

} // verus!
