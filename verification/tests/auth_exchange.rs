use pullbox::auth::{check_auth_status, parse_auth_token, AuthParams};
use pullbox::errors::PullError;

#[test]
fn anonymous_query_holds_exactly_four_parameters() {
    let params = AuthParams::new(None, None, String::from("repository:library/busybox:pull"));
    let q = params.to_query();
    assert_eq!(
        q,
        "access_type=offline&client_id=dockerengine&scope=repository:library/busybox:pull&service=registry.docker.io"
    );
    assert!(!q.contains("username"));
    assert!(!q.contains("password"));
    assert!(!q.contains("grant_type"));
}

#[test]
fn credentialed_query_adds_grant_type_username_and_password() {
    let params = AuthParams::new(
        Some(String::from("user")),
        Some(String::from("secret")),
        String::from("registry"),
    );
    let q = params.to_query();
    assert_eq!(
        q,
        "access_type=offline&client_id=dockerengine&grant_type=password&password=secret&scope=registry&service=registry.docker.io&username=user"
    );
}

#[test]
fn auth_params_fixed_fields() {
    let params = AuthParams::new(None, None, String::from("registry"));
    assert_eq!(params.service, "registry.docker.io");
    assert_eq!(params.client_id, "dockerengine");
    assert_eq!(params.access_type, "offline");
    assert!(params.grant_type.is_none());
}

#[test]
fn parse_auth_token_reads_the_access_token_field() {
    let body = br#"{"token":"other","access_token":"abc123","expires_in":300,"issued_at":"now"}"#;
    assert_eq!(parse_auth_token(body), Ok(String::from("abc123")));
}

#[test]
fn parse_auth_token_rejects_a_missing_field() {
    let body = br#"{"token":"other","expires_in":300}"#;
    assert_eq!(parse_auth_token(body), Err(PullError::Auth));
}

#[test]
fn parse_auth_token_rejects_a_non_string_token() {
    let body = br#"{"access_token":7}"#;
    assert_eq!(parse_auth_token(body), Err(PullError::Auth));
}

#[test]
fn a_non_success_token_status_fails_authentication() {
    assert_eq!(check_auth_status(200), Ok(()));
    assert_eq!(check_auth_status(204), Ok(()));
    assert_eq!(check_auth_status(301), Err(PullError::Auth));
    assert_eq!(check_auth_status(401), Err(PullError::Auth));
    assert_eq!(check_auth_status(500), Err(PullError::Auth));
}

#[test]
fn parse_auth_token_rejects_invalid_json() {
    let body = b"not json at all";
    assert_eq!(parse_auth_token(body), Err(PullError::Auth));
}
