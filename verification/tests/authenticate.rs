use stream_config::authenticate::{is_token_valid, token_from_headers, AccessToken, AccessTokenError};

#[test]
fn missing_token_header_is_reported_missing() {
    let headers: Vec<String> = Vec::new();
    let r = token_from_headers(&headers);
    assert!(matches!(r, Err(AccessTokenError::Missing)));
}

#[test]
fn bearer_token_with_value_is_accepted() {
    assert!(is_token_valid("Bearer abc123"));
    let headers = vec![String::from("Bearer abc123")];
    match token_from_headers(&headers) {
        Ok(AccessToken(t)) => assert_eq!(t, "Bearer abc123"),
        other => panic!("expected the token to be accepted, got {:?}", other),
    }
}

#[test]
fn token_without_scheme_is_invalid() {
    assert!(!is_token_valid("abc123"));
    let headers = vec![String::from("abc123")];
    assert!(matches!(token_from_headers(&headers), Err(AccessTokenError::Invalid)));
}

#[test]
fn scheme_without_a_value_is_invalid() {
    assert!(!is_token_valid("Bearer"));
    assert!(!is_token_valid("Bearer "));
}

#[test]
fn value_must_start_with_the_bearer_scheme() {
    assert!(!is_token_valid(" Bearer abc"));
    assert!(!is_token_valid("bearer abc"));
    assert!(!is_token_valid("Bearerabc"));
    assert!(!is_token_valid(""));
}

#[test]
fn duplicate_token_headers_are_invalid() {
    let headers = vec![String::from("Bearer a"), String::from("Bearer b")];
    assert!(matches!(token_from_headers(&headers), Err(AccessTokenError::Invalid)));
}
