use syncthing_client::errors::{api_header_key, evaluate_response, status_is_success, ApiError};
use syncthing_client::rest::system::version::Version;

#[test]
fn success_statuses_hand_the_body_on() {
    assert!(!status_is_success(199));
    assert!(status_is_success(200));
    assert!(status_is_success(299));
    assert!(!status_is_success(300));
    assert!(!status_is_success(500));

    assert_eq!(evaluate_response(204, "".to_string()), Ok("".to_string()));
}

#[test]
fn failure_statuses_carry_code_and_body() {
    let r = evaluate_response(500, "internal error".to_string());
    assert_eq!(r, Err(ApiError::HttpStatus(500, "internal error".to_string())));
    let err = r.unwrap_err();
    assert_eq!(err.describe(), "got http status code 500: internal error");
}

#[test]
fn api_key_header_name_is_fixed() {
    assert_eq!(api_header_key(), "X-API-Key");
}

#[test]
fn error_descriptions_name_the_failure() {
    assert_eq!(
        ApiError::Transport("connection refused".to_string()).describe(),
        "transport error: connection refused"
    );
    assert_eq!(
        ApiError::Decode("expected a number".to_string()).describe(),
        "decode error: expected a number"
    );
    assert_eq!(
        ApiError::UriConstruction("bad authority".to_string()).describe(),
        "uri construction error: bad authority"
    );
}

/// Reads the version endpoint's reply shape from JSON text.
fn parse_version(json: &str) -> Result<Version, ApiError> {
    let value: serde_json::Value =
        serde_json::from_str(json).map_err(|e| ApiError::Decode(e.to_string()))?;
    let field = |name: &str| -> Result<String, ApiError> {
        value
            .get(name)
            .and_then(|v| v.as_str())
            .map(|s| s.to_string())
            .ok_or_else(|| ApiError::Decode(format!("missing field {name}")))
    };
    Ok(Version {
        arch: field("arch")?,
        long_version: field("longVersion")?,
        os: field("os")?,
        version: field("version")?,
    })
}

#[test]
fn version_round_trip_keeps_all_four_fields() {
    // A version request that answers 200 with this body decodes to a record
    // with the four fields intact and no error.
    let body = r#"{"arch":"amd64","longVersion":"v1","os":"linux","version":"v1.0"}"#;
    let handed_on = evaluate_response(200, body.to_string()).expect("200 is a success");
    let version = parse_version(&handed_on).expect("the body decodes");
    assert_eq!(version.arch, "amd64");
    assert_eq!(version.long_version, "v1");
    assert_eq!(version.os, "linux");
    assert_eq!(version.version, "v1.0");
}

#[test]
fn version_with_a_missing_field_is_a_decode_error() {
    let body = r#"{"arch":"amd64","os":"linux","version":"v1.0"}"#;
    let handed_on = evaluate_response(200, body.to_string()).expect("200 is a success");
    assert!(matches!(parse_version(&handed_on), Err(ApiError::Decode(_))));
}
