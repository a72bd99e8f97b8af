use firebolt_client::auth::{
    expiration_timestamp, extract_error_message_from_json, parse_token_response,
    validate_and_transform_endpoint,
};

#[test]
fn test_validate_and_transform_endpoint() {
    assert_eq!(
        validate_and_transform_endpoint("api.dev.firebolt.io").unwrap(),
        "https://id.dev.firebolt.io/oauth/token"
    );

    assert_eq!(
        validate_and_transform_endpoint("https://api.staging.firebolt.io").unwrap(),
        "https://id.staging.firebolt.io/oauth/token"
    );

    assert_eq!(
        validate_and_transform_endpoint("api.firebolt.io").unwrap(),
        "https://id.firebolt.io/oauth/token"
    );

    assert!(validate_and_transform_endpoint("invalid.endpoint.com").is_err());
    assert!(validate_and_transform_endpoint("api.invalid.com").is_err());
    assert!(validate_and_transform_endpoint("wrong.dev.firebolt.io").is_err());
}

#[test]
fn validate_endpoint_with_http_and_message() {
    assert_eq!(
        validate_and_transform_endpoint("http://api.app.firebolt.io").unwrap(),
        "https://id.app.firebolt.io/oauth/token"
    );
    assert_eq!(
        validate_and_transform_endpoint("https://x.io").unwrap_err(),
        "Invalid API endpoint format. Expected 'api.<env>.firebolt.io', got 'x.io'"
    );
}

#[test]
fn test_auth_response_deserialization() {
    let json = r#"{"access_token": "test_token_123", "expires_in": 3600}"#;
    let (access_token, expires_in) = parse_token_response(json).unwrap();

    assert_eq!(access_token, "test_token_123");
    assert_eq!(expires_in, 3600);
}

#[test]
fn test_auth_response_deserialization_invalid() {
    let json = r#"{"invalid": "data"}"#;
    let result = parse_token_response(json);
    assert!(result.is_err());
}

#[test]
fn token_response_rejects_bad_lifetime() {
    assert!(parse_token_response(r#"{"access_token": "t", "expires_in": -1}"#).is_err());
    assert!(parse_token_response(r#"{"access_token": "t", "expires_in": "10"}"#).is_err());
    assert!(parse_token_response("not json").is_err());
}

#[test]
fn test_handle_success_response() {
    let (access_token, expires_in) =
        parse_token_response(r#"{"access_token": "test_token_123", "expires_in": 3600}"#).unwrap();
    assert_eq!(access_token, "test_token_123");
    assert_eq!(expiration_timestamp(1_000, expires_in), Some(4_600));
    assert_eq!(expiration_timestamp(u64::MAX, 1), None);
}

#[test]
fn test_handle_error_response_with_message() {
    let json_response = r#"{"message": "Invalid credentials"}"#;
    assert_eq!(extract_error_message_from_json(json_response), "Invalid credentials");
}

#[test]
fn test_handle_error_response_with_error_field() {
    let json_response = r#"{"error": "invalid_client"}"#;
    assert_eq!(extract_error_message_from_json(json_response), "invalid_client");
}

#[test]
fn error_message_fallbacks() {
    assert_eq!(
        extract_error_message_from_json(r#"{"error_description": "bad secret"}"#),
        "bad secret"
    );
    assert_eq!(
        extract_error_message_from_json(r#"{"message": "m", "error": "e"}"#),
        "m"
    );
    assert_eq!(
        extract_error_message_from_json(r#"{"message": 3}"#),
        "Authentication failed: {\"message\": 3}"
    );
    assert_eq!(extract_error_message_from_json("oops"), "Authentication failed: oops");
}
