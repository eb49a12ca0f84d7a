use ddog::client::read_answer;
use ddog::config::Config;
use ddog::error::{DdError, HttpFailure};

#[test]
fn test_missing_env_display() {
    let err = DdError::MissingEnv("DD_API_KEY".into());
    let msg = err.message();
    assert!(msg.contains("DD_API_KEY"));
    assert!(msg.contains("export"));
    assert!(msg.contains("api-keys"));
}

#[test]
fn test_api_error_401_hint() {
    let err = DdError::Api { status: 401, body: "Unauthorized".into() };
    let msg = err.message();
    assert!(msg.contains("401"));
    assert!(msg.contains("invalid or expired"));
}

#[test]
fn test_api_error_403_hint() {
    let err = DdError::Api { status: 403, body: "Forbidden".into() };
    assert!(err.message().contains("Permission denied"));
}

#[test]
fn test_api_error_429_hint() {
    let err = DdError::Api { status: 429, body: "Too Many Requests".into() };
    assert!(err.message().contains("Rate limited"));
}

#[test]
fn test_validation_error() {
    let err = DdError::Validation("bad input".into());
    assert_eq!(err.message(), "bad input");
}

#[test]
fn http_failures_explain_themselves() {
    let e = DdError::Http { kind: HttpFailure::Timeout, detail: "slow".into() };
    assert_eq!(e.message(), "Request timed out: slow\nTry a shorter time range or smaller --limit.");
    let e = DdError::Http { kind: HttpFailure::Connect, detail: "refused".into() };
    assert_eq!(e.message(), "Connection failed: refused\nCheck your network connection and DD_SITE setting.");
    let e = DdError::Json("eof".into());
    assert_eq!(e.message(), "Failed to parse API response: eof");
}

#[test]
fn error_statuses_become_api_errors() {
    match read_answer(500, "boom".into()) {
        Err(DdError::Api { status, body }) => {
            assert_eq!(status, 500);
            assert_eq!(body, "boom");
        }
        _ => panic!("expected an API error"),
    }
    assert!(matches!(read_answer(200, String::new()), Ok(None)));
    assert_eq!(read_answer(200, "{}".into()).unwrap(), Some("{}".to_string()));
}

#[test]
fn config_needs_both_keys_and_defaults_the_site() {
    let c = Config::from_values(Some(" k1 ".into()), Some("k2".into()), None).unwrap();
    assert_eq!(c.api_key, "k1");
    assert_eq!(c.site, "datadoghq.com");
    assert_eq!(c.base_url(), "https://api.datadoghq.com");
    let c = Config::from_values(Some("k1".into()), Some("k2".into()), Some("  ".into())).unwrap();
    assert_eq!(c.site, "datadoghq.com");
    let c = Config::from_values(Some("k1".into()), Some("k2".into()), Some("datadoghq.eu".into())).unwrap();
    assert_eq!(c.base_url(), "https://api.datadoghq.eu");
    match Config::from_values(None, Some("k2".into()), None) {
        Err(DdError::MissingEnv(name)) => assert_eq!(name, "DD_API_KEY"),
        _ => panic!("expected a missing API key"),
    }
    match Config::from_values(Some("k1".into()), Some("   ".into()), None) {
        Err(DdError::MissingEnv(name)) => assert_eq!(name, "DD_APP_KEY"),
        _ => panic!("expected a missing APP key"),
    }
}

fn some(s: &str) -> Option<String> {
    Some(s.to_string())
}

fn missing_name(r: Result<Config, DdError>) -> String {
    match r {
        Err(DdError::MissingEnv(name)) => name,
        Ok(_) => panic!("expected a missing setting"),
        Err(other) => panic!("expected a missing setting, got {}", other.message()),
    }
}

#[test]
fn from_env_reads_required_vars_and_defaults_site() {
    let config = Config::from_values(some("api-key"), some("app-key"), None).expect("expected config to load");
    assert_eq!(config.api_key, "api-key");
    assert_eq!(config.app_key, "app-key");
    assert_eq!(config.site, "datadoghq.com");
    assert_eq!(config.base_url(), "https://api.datadoghq.com");
}

#[test]
fn from_env_uses_custom_site() {
    let config =
        Config::from_values(some("api-key"), some("app-key"), some("datadoghq.eu")).expect("expected config to load");
    assert_eq!(config.site, "datadoghq.eu");
    assert_eq!(config.base_url(), "https://api.datadoghq.eu");
}

#[test]
fn from_env_defaults_empty_site() {
    let config = Config::from_values(some("api-key"), some("app-key"), some("   ")).expect("expected config to load");
    assert_eq!(config.site, "datadoghq.com");
}

#[test]
fn from_env_requires_api_key() {
    assert_eq!(missing_name(Config::from_values(None, some("app-key"), None)), "DD_API_KEY");
}

#[test]
fn from_env_requires_app_key() {
    assert_eq!(missing_name(Config::from_values(some("api-key"), None, None)), "DD_APP_KEY");
}

#[test]
fn from_env_rejects_empty_api_key() {
    assert_eq!(missing_name(Config::from_values(some("   "), some("app-key"), None)), "DD_API_KEY");
}

#[test]
fn from_env_rejects_empty_app_key() {
    assert_eq!(missing_name(Config::from_values(some("api-key"), some(""), None)), "DD_APP_KEY");
}
