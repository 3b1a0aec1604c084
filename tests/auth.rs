use cdb_api::error::AuthError;
use cdb_api::keys::Keys;
use cdb_api::payloads::{AuthBody, AuthPayload, RegisterPayload};
use cdb_api::role::Role;
use cdb_api::session::{
    begin_authorize, begin_revalidate, complete_session, complete_session_at, Grant, StoreQuery,
};
use cdb_api::extractor::extract_at;

const NOW: i64 = 1_700_000_000_000;
const USER: &str = "5f0e3a52-8b7e-4c55-9a3e-2f1d7c6b9a10";
const REFRESH: &str = "0b6e3c2a-1d4f-4e8a-9c7b-5a3d2e1f0c9b";

fn keys() -> Keys {
    Keys::new(b"a signing secret for the tests")
}

fn payload(id: &str, secret: &str) -> AuthPayload {
    AuthPayload { client_id: id.to_string(), client_secret: secret.to_string() }
}

fn grant(role: &str) -> Grant {
    Grant {
        role: role.to_string(),
        user_id: USER.to_string(),
        refresh_token: REFRESH.to_string(),
        refresh_token_expires: NOW + 30 * 24 * 3_600_000,
    }
}

#[test]
fn test_authorize() {
    match begin_authorize(&payload("sleepy.g@yahoo.com", "test")).unwrap() {
        StoreQuery::Authenticate { client_id, client_secret } => {
            assert_eq!(client_id, "sleepy.g@yahoo.com");
            assert_eq!(client_secret, "test");
        }
        other => panic!("unexpected query {other:?}"),
    }
    let body = complete_session(Some(grant("admin")), &keys()).unwrap();
    assert_eq!(body.token_type, "Bearer".to_string());
}

#[test]
fn test_revalidate() {
    let query = begin_revalidate(REFRESH).unwrap();
    assert!(matches!(query, StoreQuery::ValidateRefreshToken { .. }));
    let json = complete_session(Some(grant("anonymous")), &keys()).unwrap();
    assert!(!json.access_token.is_empty(), "Expecting access token");
    assert!(json.expires_in > 0, "Expecting expiration timestamp");
    assert_eq!(json.refresh_token, REFRESH, "Expecting expiration timestamp for refresh token");
    assert_eq!(json.token_type, "Bearer", "Expecting token type");
}

#[test]
fn scenario_authorize_known_pair() {
    let query = begin_authorize(&payload("david.bowie@gmail.com", "Z1gGy.Pl4y3d!GuI74R")).unwrap();
    assert!(matches!(query, StoreQuery::Authenticate { .. }));
    let body = complete_session_at(Some(grant("admin")), &keys(), NOW).unwrap();
    assert_eq!(body.token_type, "Bearer");
    assert_eq!(body.expires_in, NOW + 900_000);
    assert_eq!(body.refresh_token, REFRESH);
    assert_eq!(body.refresh_token_expires, NOW + 30 * 24 * 3_600_000);
    assert!(body.refresh_token_expires > NOW);
    let header = format!("Bearer {}", body.access_token);
    let claims = extract_at(Some(&header), &keys(), NOW).unwrap();
    assert_eq!(claims.sub, USER);
    assert_eq!(claims.role, Role::Admin);
}

#[test]
fn scenario_missing_client_id() {
    let err = begin_authorize(&payload("", "x")).unwrap_err();
    assert_eq!(err, AuthError::MissingCredentials);
    assert_eq!(err.status_code(), 400);
    assert_eq!(err.body(), "{\"error\":\"Missing credentials\"}");
}

#[test]
fn scenario_unknown_client() {
    // well-formed, so the store is asked; it rejects the pair
    assert!(begin_authorize(&payload("unknown@x.com", "wrong")).is_ok());
    let err = complete_session_at(None, &keys(), NOW).unwrap_err();
    assert_eq!(err, AuthError::WrongCredentials);
    assert_eq!(err.status_code(), 401);
    assert_eq!(err.body(), "{\"error\":\"Wrong credentials\"}");
}

#[test]
fn scenario_revalidate_valid_refresh_token() {
    match begin_revalidate("00000000-0000-0000-0000-000000000001").unwrap() {
        StoreQuery::ValidateRefreshToken { refresh_token } => assert_eq!(refresh_token, 1),
        other => panic!("unexpected query {other:?}"),
    }
    let original = complete_session_at(Some(grant("admin")), &keys(), NOW).unwrap();
    let fresh = complete_session_at(Some(grant("admin")), &keys(), NOW + 60_000).unwrap();
    assert_ne!(original.access_token, fresh.access_token);
    let header = format!("Bearer {}", fresh.access_token);
    let claims = extract_at(Some(&header), &keys(), NOW + 60_000).unwrap();
    assert_eq!(claims.sub, USER);
    assert_eq!(claims.role, Role::Admin);
}

#[test]
fn empty_secret_is_missing_credentials() {
    for id in ["david.bowie@gmail.com", "", "nobody"] {
        assert_eq!(begin_authorize(&payload(id, "")).unwrap_err(), AuthError::MissingCredentials);
    }
}

#[test]
fn malformed_client_id_is_missing_credentials() {
    assert_eq!(begin_authorize(&payload("not-an-email", "secret")).unwrap_err(), AuthError::MissingCredentials);
    assert_eq!(payload("a@b", "s").validate(), Ok(()));
    assert_eq!(payload("a b@c.com", "s").validate(), Err(AuthError::MissingCredentials));
}

#[test]
fn rejected_refresh_token_is_unauthorized() {
    let err = begin_revalidate("not-a-uuid").unwrap_err();
    assert_eq!(err, AuthError::InvalidRefreshToken);
    assert_eq!(err.status_code(), 401);
    assert_eq!(begin_revalidate("").unwrap_err(), AuthError::InvalidRefreshToken);
    let err = complete_session(None, &keys()).unwrap_err();
    assert_eq!(err, AuthError::WrongCredentials);
    assert_eq!(err.status_code(), 401);
}

#[test]
fn unrecognised_store_role_downgrades_to_anonymous() {
    let body = complete_session_at(Some(grant("superuser")), &keys(), NOW).unwrap();
    let header = format!("Bearer {}", body.access_token);
    assert_eq!(extract_at(Some(&header), &keys(), NOW).unwrap().role, Role::Anonymous);
}

#[test]
fn unusable_subject_is_token_creation() {
    let mut g = grant("admin");
    g.user_id = String::new();
    assert_eq!(complete_session_at(Some(g), &keys(), NOW).unwrap_err(), AuthError::TokenCreation);
}

#[test]
fn auth_body_is_bearer() {
    let b = AuthBody::new("t".to_string(), 5, "r".to_string(), 6);
    assert_eq!(b.token_type, "Bearer");
    assert_eq!((b.access_token.as_str(), b.expires_in, b.refresh_token.as_str(), b.refresh_token_expires), ("t", 5, "r", 6));
}

#[test]
fn registration_shape() {
    let mut p = RegisterPayload {
        first_name: Some("Sleepy".to_string()),
        last_name: Some("Gary".to_string()),
        email: "sleepy.g@yahoo.com".to_string(),
        password: "thisIsMyPassword".to_string(),
    };
    assert_eq!(p.validate(), Ok(()));
    p.password = "short".to_string();
    assert_eq!(p.validate(), Err(AuthError::ValidationError));
    p.password = "ééééééé".to_string();
    assert_eq!(p.validate(), Err(AuthError::ValidationError));
    p.password = "éééééééé".to_string();
    assert_eq!(p.validate(), Ok(()));
    p.email = "sleepy.g".to_string();
    assert_eq!(p.validate(), Err(AuthError::ValidationError));
}
