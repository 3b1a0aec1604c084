use vstd::prelude::*;
use crate::claims::{ClaimsView, claims_wf, payload_text};

verus! {

#[verifier::external_type_specification]
#[verifier::external_body]
pub struct ExJwtError(jsonwebtoken::errors::Error);

/// The HS512-signed compact token that jsonwebtoken builds for a JSON payload
/// text under an HMAC secret.
pub uninterp spec fn hs512_token(payload: Seq<char>, secret: Seq<u8>) -> Seq<char>;

/// The payload text jsonwebtoken hands back for a token whose HS512 signature
/// verifies under an HMAC secret; nothing when it refuses the token (bad
/// signature, other algorithm, malformed parts or payload).
pub uninterp spec fn hs512_payload(token: Seq<char>, secret: Seq<u8>) -> Option<Seq<char>>;

/// Relies on `jsonwebtoken::encode` with an HS512 header and
/// `EncodingKey::from_secret`, the payload passed through verbatim as a
/// `serde_json` raw value: the token depends on the payload and the secret alone.
/// Signing succeeds on any JSON text: an HMAC key of any length is accepted,
/// the fixed header and a raw value always serialize, and `RawValue::from_string`
/// refuses only text that is not JSON. The payload of well-formed claims is
/// JSON (its subject holds only letters, digits and hyphens). A token is its
/// three dot-separated parts, so it is never empty.
#[verifier::external_body]
pub(crate) fn sign_hs512(payload: &str, secret: &[u8]) -> (r: Result<String, jsonwebtoken::errors::Error>)
    ensures
        r is Ok ==> r->Ok_0@ == hs512_token(payload@, secret@),
        r is Ok ==> r->Ok_0@.len() > 0,
        (exists|c: ClaimsView| claims_wf(c) && #[trigger] payload_text(c) == payload@) ==> r is Ok,
{
    let claims = serde_json::value::RawValue::from_string(payload.to_string())?;
    let header = jsonwebtoken::Header::new(jsonwebtoken::Algorithm::HS512);
    jsonwebtoken::encode(&header, &claims, &jsonwebtoken::EncodingKey::from_secret(secret))
}

/// Relies on `jsonwebtoken::decode` with `DecodingKey::from_secret`, HS512 as the
/// only algorithm, and no time-based or required-claim checks, the payload read
/// back as a raw value: the outcome depends on the token and the secret alone.
/// A token that `sign_hs512` made under the same secret from the payload of
/// well-formed claims verifies and gives that payload back: its header is
/// HS512, its signature is the HMAC of its first two parts, its payload is a
/// JSON object without `aud`, and a raw value keeps the text unchanged.
#[verifier::external_body]
pub(crate) fn verify_hs512(token: &str, secret: &[u8]) -> (r: Result<String, jsonwebtoken::errors::Error>)
    ensures
        r is Ok <==> hs512_payload(token@, secret@) is Some,
        r is Ok ==> hs512_payload(token@, secret@) == Some(r->Ok_0@),
        forall|c: ClaimsView|
            claims_wf(c) && token@ == #[trigger] hs512_token(payload_text(c), secret@) ==> (r is Ok
                && r->Ok_0@ == payload_text(c)),
{
    let mut validation = jsonwebtoken::Validation::new(jsonwebtoken::Algorithm::HS512);
    validation.validate_exp = false;
    validation.required_spec_claims.clear();
    let key = jsonwebtoken::DecodingKey::from_secret(secret);
    let data = jsonwebtoken::decode::<Box<serde_json::value::RawValue>>(token, &key, &validation)?;
    Ok(data.claims.get().to_string())
}

} // verus!
