use rust_rsshub::RssHubError;
use std::io;

#[test]
fn test_error_from_io_error() {
    let io_error = io::Error::new(io::ErrorKind::NotFound, "File not found");
    let rss_error = RssHubError::IoError(io_error.to_string());

    assert!(matches!(rss_error, RssHubError::IoError(_)));
    assert!(rss_error.to_string().contains("File not found"));
}

#[test]
fn test_error_http_variant() {
    let error = RssHubError::Config("Test".to_string());

    match error {
        RssHubError::Config(msg) => assert_eq!(msg, "Test"),
        _ => panic!("Expected Config variant"),
    }
}

#[test]
fn test_error_display() {
    let errors = vec![
        RssHubError::Config("Invalid config".to_string()),
        RssHubError::ParseError("Failed to parse HTML".to_string()),
        RssHubError::PluginNotFound("my-plugin".to_string()),
        RssHubError::EncodingError("Invalid UTF-8".to_string()),
        RssHubError::RateLimitExceeded,
        RssHubError::InvalidUrl("not-a-url".to_string()),
    ];

    for error in errors {
        let display_string = error.to_string();
        assert!(!display_string.is_empty());
        println!("Error: {}", display_string);
    }
}

#[test]
fn test_custom_error_messages() {
    let config_err = RssHubError::Config("Missing required field".to_string());
    assert_eq!(config_err.to_string(), "Configuration error: Missing required field");

    let plugin_err = RssHubError::PluginNotFound("test-plugin".to_string());
    assert_eq!(plugin_err.to_string(), "Plugin 'test-plugin' not found");

    let url_err = RssHubError::InvalidUrl("htp://invalid".to_string());
    assert_eq!(url_err.to_string(), "Invalid URL: htp://invalid");
}

#[test]
fn test_result_type_alias() {
    fn returns_ok() -> Result<String, RssHubError> {
        Ok("success".to_string())
    }

    fn returns_err() -> Result<String, RssHubError> {
        Err(RssHubError::ParseError("test error".to_string()))
    }

    assert!(returns_ok().is_ok());
    assert_eq!(returns_ok().unwrap(), "success");

    assert!(returns_err().is_err());
}

#[test]
fn test_every_error_message() {
    assert_eq!(RssHubError::HttpError("timed out".to_string()).to_string(), "HTTP request failed: timed out");
    assert_eq!(RssHubError::ParseError("bad".to_string()).to_string(), "Parse error: bad");
    assert_eq!(RssHubError::IoError("denied".to_string()).to_string(), "IO error: denied");
    assert_eq!(RssHubError::InvalidYaml("line 3".to_string()).to_string(), "Invalid YAML: line 3");
    assert_eq!(RssHubError::EncodingError("gbk".to_string()).to_string(), "Encoding error: gbk");
    assert_eq!(
        RssHubError::SerializationError("eof".to_string()).to_string(),
        "Serialization error: eof"
    );
    assert_eq!(RssHubError::RateLimitExceeded.to_string(), "Rate limit exceeded");
}

#[test]
fn test_status_codes() {
    assert_eq!(RssHubError::PluginNotFound("x".to_string()).status_code(), 404);
    assert_eq!(RssHubError::InvalidUrl("x".to_string()).status_code(), 400);
    assert_eq!(RssHubError::Config("x".to_string()).status_code(), 400);
    assert_eq!(RssHubError::HttpError("x".to_string()).status_code(), 502);
    assert_eq!(RssHubError::ParseError("x".to_string()).status_code(), 500);
    assert_eq!(RssHubError::IoError("x".to_string()).status_code(), 500);
    assert_eq!(RssHubError::InvalidYaml("x".to_string()).status_code(), 500);
    assert_eq!(RssHubError::EncodingError("x".to_string()).status_code(), 500);
    assert_eq!(RssHubError::SerializationError("x".to_string()).status_code(), 500);
    assert_eq!(RssHubError::RateLimitExceeded.status_code(), 500);
}
