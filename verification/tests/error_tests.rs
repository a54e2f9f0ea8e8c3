use ai00_run::error::utils;
use ai00_run::error::{Error, ErrorCode, ErrorContext};

#[test]
fn test_error_display() {
    let err = Error::Config("Invalid configuration".to_string());
    assert_eq!(err.to_string(), "Configuration error: Invalid configuration");
}

#[test]
fn test_error_code() {
    assert_eq!(ErrorCode::IoError.as_u32(), 1001);
    assert_eq!(ErrorCode::ConfigError.description(), "Configuration is invalid");
}

#[test]
fn test_error_context() {
    let context = ErrorContext::new(ErrorCode::ConfigError, "Invalid config")
        .with_details("Missing required field")
        .with_source("config.rs");

    assert!(context.to_string().contains("Invalid config"));
    assert!(context.to_string().contains("Missing required field"));
    assert!(context.to_string().contains("config.rs"));
}

#[test]
fn test_error_utils() {
    let err = utils::config_error("test");
    assert!(matches!(err, Error::Config(_)));
}

#[test]
fn error_context_text_is_exact() {
    let context = ErrorContext::new(ErrorCode::ConfigError, "Invalid config")
        .with_details("Missing required field")
        .with_source("config.rs");
    assert_eq!(
        context.to_string(),
        "[2001: Configuration is invalid] Invalid config - Missing required field (source: config.rs)"
    );
    let bare = ErrorContext::new(ErrorCode::ScriptError, "boom");
    assert_eq!(bare.to_string(), "[7001: Script execution failed] boom");
}

#[test]
fn error_codes_and_texts() {
    assert_eq!(ErrorCode::VirtualEnvironmentNotFound.as_u32(), 5002);
    assert_eq!(ErrorCode::PlatformError.to_string(), "9001: Platform not supported");
    assert_eq!(Error::UnsupportedArchitecture.to_string(), "Unsupported architecture");
    assert_eq!(
        Error::PythonExecutableNotValid("/x/python3".to_string()).to_string(),
        "Python executable is not valid: /x/python3"
    );
    let from: Error = Error::from("plain".to_string());
    assert!(matches!(from, Error::Other(ref m) if m == "plain"));
}

#[test]
fn error_utils_kinds() {
    assert!(matches!(utils::runtime_error("r"), Error::Runtime(ref m) if m == "r"));
    assert!(matches!(utils::version_error("v"), Error::Version(_)));
    assert!(matches!(utils::virtual_env_error("e"), Error::VirtualEnv(_)));
    assert!(matches!(utils::package_error("p"), Error::Package(_)));
    assert!(matches!(utils::script_error("s"), Error::Script(_)));
    assert!(matches!(utils::network_error("n"), Error::Network(_)));
    assert!(matches!(utils::platform_error("x"), Error::Platform(ref m) if m == "x"));
}

#[test]
fn error_from_text_slice() {
    let e: Error = Error::from("slice");
    assert!(matches!(e, Error::Other(ref m) if m == "slice"));
    assert_eq!(e.to_string(), "Other error: slice");
}

#[test]
fn error_from_bad_utf8() {
    let bad = String::from_utf8(vec![0xffu8, 0xfe]).unwrap_err();
    let e: Error = Error::from(bad);
    match e {
        Error::Other(m) => assert!(m.starts_with("UTF-8 conversion error: invalid utf-8")),
        _ => panic!("expected an Other error"),
    }
}
