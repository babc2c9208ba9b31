use syncthing_client::decimal::ParseIntReason;
use syncthing_client::rest::config::folders::CopyRangeMethod;
use syncthing_client::rest::config::gui::{ParseWildcardPortError, WildcardPort};
use syncthing_client::rest::config::restart_required::RestartRequired;

#[test]
fn copy_range_method_naming() {
    assert_eq!(CopyRangeMethod::Ioctl.wire_json(), "\"ioctl\"");
    assert_eq!(CopyRangeMethod::DuplicateExtents.wire_json(), "\"duplicate_extents\"");
}

#[test]
fn restart_required_deserializes() {
    let deserialized = parse_restart_required(RESTART_REQUIRED);
    assert!(deserialized.requires_restart);

    const RESTART_REQUIRED: &str = r#"
        {
            "requiresRestart": true
        }
        "#;
}

/// Reads the endpoint's reply shape from JSON text.
fn parse_restart_required(json: &str) -> RestartRequired {
    let value: serde_json::Value = serde_json::from_str(json).unwrap();
    RestartRequired {
        requires_restart: value.get("requiresRestart").unwrap().as_bool().unwrap(),
    }
}

#[test]
fn wildcard_port() {
    let wildcard = ":12345";
    assert_eq!(WildcardPort::parse(wildcard), Ok(WildcardPort::new(12345)));
}

#[test]
fn wildcard_port_renders_with_colon() {
    assert_eq!(WildcardPort::new(12345).render(), ":12345");
    assert_eq!(WildcardPort::new(0).render(), ":0");
}

#[test]
fn wildcard_port_accessors() {
    let port = WildcardPort::new(8384);
    assert_eq!(port.port(), 8384);
}

#[test]
fn wildcard_port_parse_errors() {
    assert_eq!(WildcardPort::parse(""), Err(ParseWildcardPortError::MissingPrefix));
    assert_eq!(WildcardPort::parse("8384"), Err(ParseWildcardPortError::MissingPrefix));
    assert_eq!(
        WildcardPort::parse(":"),
        Err(ParseWildcardPortError::IntError(ParseIntReason::Empty))
    );
    assert_eq!(
        WildcardPort::parse(":12a45"),
        Err(ParseWildcardPortError::IntError(ParseIntReason::InvalidDigit))
    );
    assert_eq!(
        WildcardPort::parse(":65536"),
        Err(ParseWildcardPortError::IntError(ParseIntReason::Overflow))
    );
    assert_eq!(
        WildcardPort::parse(":65536").unwrap_err().describe(),
        "number too large to fit in target type"
    );
}
