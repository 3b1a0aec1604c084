use cdb_api::error::AuthError;
use cdb_api::keys::Keys;
use cdb_api::role::Role;
use cdb_api::extractor::{bearer_token, claims_from_payload, extract, extract_at};
use cdb_api::issuer::{issue, Identity};

const SUB: &str = "a00c9bc7-92ca-413a-97ec-66204314bbca";
const NOW: i64 = 1_700_000_000_000;

fn keys() -> Keys {
    Keys::new(b"a signing secret for the tests")
}

fn identity(role: Role) -> Identity {
    Identity { subject_id: SUB.to_string(), role }
}

#[test]
fn keys_hold_the_secret() {
    assert_eq!(keys().secret(), b"a signing secret for the tests");
}

#[test]
fn issued_token_is_a_signed_compact_jwt() {
    let (token, claims) = issue(&identity(Role::Admin), &keys(), NOW).unwrap();
    assert_eq!(token.split('.').count(), 3);
    // {"typ":"JWT","alg":"HS512"} and {"sub":... in base64url
    assert!(token.starts_with("eyJ"));
    assert!(token.split('.').nth(1).unwrap().starts_with("eyJzdWIiOi"));
    assert_eq!(claims.exp, NOW + 900_000);
    let again = issue(&identity(Role::Admin), &keys(), NOW).unwrap().0;
    assert_eq!(token, again);
    let other = issue(&identity(Role::Admin), &Keys::new(b"another secret"), NOW).unwrap().0;
    assert_ne!(token, other);
}

#[test]
fn issue_refuses_unusable_input() {
    let bad = Identity { subject_id: "not \"an\" id".to_string(), role: Role::Admin };
    assert_eq!(issue(&bad, &keys(), NOW).unwrap_err(), AuthError::TokenCreation);
    let empty = Identity { subject_id: String::new(), role: Role::Admin };
    assert_eq!(issue(&empty, &keys(), NOW).unwrap_err(), AuthError::TokenCreation);
    assert_eq!(issue(&identity(Role::Admin), &keys(), i64::MAX).unwrap_err(), AuthError::TokenCreation);
}

#[test]
fn extract_of_issue_gives_back_the_identity() {
    for role in [Role::Admin, Role::Anonymous] {
        let (token, _) = issue(&identity(role), &keys(), NOW).unwrap();
        let header = format!("Bearer {token}");
        for later in [NOW, NOW + 1, NOW + 899_999] {
            let claims = extract_at(Some(&header), &keys(), later).unwrap();
            assert_eq!(claims.sub, SUB);
            assert_eq!(claims.role, role);
            assert_eq!(claims.exp, NOW + 900_000);
        }
    }
}

#[test]
fn altered_signature_is_invalid() {
    let (token, _) = issue(&identity(Role::Admin), &keys(), NOW).unwrap();
    let sig_start = token.rfind('.').unwrap() + 1;
    let bytes = token.as_bytes();
    for i in sig_start..bytes.len() {
        let mut altered = bytes.to_vec();
        altered[i] = if bytes[i] == b'A' { b'B' } else { b'A' };
        let altered = String::from_utf8(altered).unwrap();
        let header = format!("Bearer {altered}");
        assert_eq!(extract_at(Some(&header), &keys(), NOW).unwrap_err(), AuthError::InvalidToken);
    }
}

#[test]
fn expired_token_is_invalid() {
    let (token, claims) = issue(&identity(Role::Admin), &keys(), NOW).unwrap();
    let header = format!("Bearer {token}");
    assert_eq!(extract_at(Some(&header), &keys(), claims.exp).unwrap_err(), AuthError::InvalidToken);
    assert_eq!(extract_at(Some(&header), &keys(), claims.exp + 1).unwrap_err(), AuthError::InvalidToken);
}

#[test]
fn protected_request_with_expired_token_is_rejected() {
    let (token, _) = issue(&identity(Role::Anonymous), &keys(), NOW - 3_600_000).unwrap();
    let header = format!("Bearer {token}");
    assert_eq!(extract(Some(&header), &keys()).unwrap_err(), AuthError::InvalidToken);
}

#[test]
fn token_from_other_key_or_missing_header_is_invalid() {
    let (token, _) = issue(&identity(Role::Admin), &keys(), NOW).unwrap();
    let header = format!("Bearer {token}");
    assert_eq!(extract_at(Some(&header), &Keys::new(b"wrong"), NOW).unwrap_err(), AuthError::InvalidToken);
    assert_eq!(extract_at(None, &keys(), NOW).unwrap_err(), AuthError::InvalidToken);
    assert_eq!(extract_at(Some(&token), &keys(), NOW).unwrap_err(), AuthError::InvalidToken);
    assert_eq!(extract_at(Some("Bearer not.a.token"), &keys(), NOW).unwrap_err(), AuthError::InvalidToken);
}

#[test]
fn fresh_token_is_accepted_against_the_clock() {
    let now = chrono::Utc::now().timestamp_millis();
    let (token, _) = issue(&identity(Role::Admin), &keys(), now).unwrap();
    let header = format!("bearer {token}");
    let claims = extract(Some(&header), &keys()).unwrap();
    assert_eq!(claims.sub, SUB);
    assert_eq!(claims.role, Role::Admin);
}

#[test]
fn bearer_header_shapes() {
    assert_eq!(bearer_token("Bearer abc"), Some("abc"));
    assert_eq!(bearer_token("bEaReR abc"), Some("abc"));
    assert_eq!(bearer_token("Bearer "), None);
    assert_eq!(bearer_token("Bearer"), None);
    assert_eq!(bearer_token("Basic abcdef"), None);
    assert_eq!(bearer_token("Bearer:abc"), None);
    assert_eq!(bearer_token(""), None);
}

#[test]
fn payload_decision_checks_expiry() {
    let p = "{\"sub\":\"abc\",\"role\":\"Admin\",\"exp\":100}";
    let c = claims_from_payload(p, 99).unwrap();
    assert_eq!((c.sub.as_str(), c.role, c.exp), ("abc", Role::Admin, 100));
    assert_eq!(claims_from_payload(p, 100).unwrap_err(), AuthError::InvalidToken);
    assert_eq!(claims_from_payload("{\"sub\":1}", 0).unwrap_err(), AuthError::InvalidToken);
}
