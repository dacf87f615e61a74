use simple_pokedex::config::{parse_flag, parse_port, AppConfig, ConfigError};
use simple_pokedex::error::AppError;

#[test]
fn error_kinds_map_to_codes() {
    let not_found = AppError::NotFound("x".to_string());
    let bad = AppError::BadRequest("y".to_string());
    let generic = AppError::GenericError("z".to_string());

    assert_eq!(not_found.status_code(), 404);
    assert_eq!(bad.status_code(), 400);
    assert_eq!(generic.status_code(), 500);
    assert_eq!(not_found.error_code(), "NOT_FOUND");
    assert_eq!(bad.error_code(), "BAD_REQUEST");
    assert_eq!(generic.error_code(), "INTERNAL_ERROR");
}

#[test]
fn error_messages_name_the_kind() {
    assert_eq!(AppError::NotFound("gone".to_string()).message(), "Resource not found: gone");
    assert_eq!(AppError::GenericError("boom".to_string()).message(), "Generic error: boom");
    assert_eq!(AppError::BadRequest("bad".to_string()).message(), "Bad request: bad");
}

#[test]
fn ports_parse_like_u16() {
    assert_eq!(parse_port("8080"), Some(8080));
    assert_eq!(parse_port("+80"), Some(80));
    assert_eq!(parse_port("0"), Some(0));
    assert_eq!(parse_port("65535"), Some(65535));
    assert_eq!(parse_port("65536"), None);
    assert_eq!(parse_port("99999999999"), None);
    assert_eq!(parse_port(""), None);
    assert_eq!(parse_port("+"), None);
    assert_eq!(parse_port("-1"), None);
    assert_eq!(parse_port("80a"), None);
    assert_eq!(parse_port(" 80"), None);
}

#[test]
fn flags_parse_like_bool() {
    assert_eq!(parse_flag("true"), Some(true));
    assert_eq!(parse_flag("false"), Some(false));
    assert_eq!(parse_flag("True"), None);
    assert_eq!(parse_flag(""), None);
}

#[test]
fn settings_become_config() {
    assert_eq!(
        AppConfig::from_settings("3000", None),
        Ok(AppConfig {
            server_port: 3000,
            enable_swagger: true
        })
    );
    assert_eq!(
        AppConfig::from_settings("3000", Some("false")),
        Ok(AppConfig {
            server_port: 3000,
            enable_swagger: false
        })
    );
    assert_eq!(
        AppConfig::from_settings("port", Some("maybe")),
        Err(ConfigError::InvalidSwaggerFlag)
    );
    assert_eq!(
        AppConfig::from_settings("port", Some("true")),
        Err(ConfigError::InvalidServerPort)
    );
}
