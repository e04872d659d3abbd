use genesis_backend::config::Config;
use genesis_backend::config::decimal_string;
use genesis_backend::error::ApiError;
use genesis_backend::error::GenesisError;

#[test]
fn default_config_builds_the_documented_urls() {
    let c = Config::new_default(4);
    assert_eq!(c.server.host, "127.0.0.1");
    assert_eq!(c.server.port, 8080);
    assert_eq!(c.server.workers, 4);
    assert_eq!(c.ai_core.timeout_seconds, 300);
    assert_eq!(c.ai_core.max_retries, 3);
    assert_eq!(c.logging.level, "info");
    assert_eq!(c.logging.format, "json");
    assert_eq!(c.server_url(), "127.0.0.1:8080");
    assert_eq!(c.ai_core_health_url(), "http://127.0.0.1:8000/health");
    assert_eq!(c.ai_core_run_url(), "http://127.0.0.1:8000/run");
}

#[test]
fn server_url_renders_any_port() {
    let mut c = Config::new_default(1);
    c.server.port = 65535;
    assert_eq!(c.server_url(), "127.0.0.1:65535");
    c.server.port = 0;
    assert_eq!(c.server_url(), "127.0.0.1:0");
}

#[test]
fn decimal_rendering_is_exact() {
    assert_eq!(decimal_string(0), "0");
    assert_eq!(decimal_string(7), "7");
    assert_eq!(decimal_string(10), "10");
    assert_eq!(decimal_string(40960), "40960");
    assert_eq!(decimal_string(18446744073709551615), "18446744073709551615");
}

#[test]
fn errors_map_to_their_status_codes() {
    let cases: Vec<(GenesisError, u16, &str, &str)> = vec![
        (
            GenesisError::DatabaseError("d".to_string()),
            500,
            "DATABASE_ERROR",
            "Database operation failed",
        ),
        (
            GenesisError::AiCoreError("a".to_string()),
            503,
            "AI_CORE_ERROR",
            "AI Core service unavailable",
        ),
        (
            GenesisError::ValidationError("v".to_string()),
            400,
            "VALIDATION_ERROR",
            "Invalid request data",
        ),
        (GenesisError::TimeoutError("t".to_string()), 408, "TIMEOUT_ERROR", "Request timed out"),
        (
            GenesisError::InternalError("i".to_string()),
            500,
            "INTERNAL_ERROR",
            "Internal server error",
        ),
        (GenesisError::NotFoundError("n".to_string()), 404, "NOT_FOUND", "Resource not found"),
    ];
    for (err, status, code, message) in cases {
        assert_eq!(err.http_status(), status);
        assert_eq!(err.error_code(), code);
        assert_eq!(err.public_message(), message);
    }
}

#[test]
fn describe_prefixes_the_detail() {
    assert_eq!(
        GenesisError::TimeoutError("after 300s".to_string()).describe(),
        "Timeout error: after 300s"
    );
    assert_eq!(
        GenesisError::NotFoundError("job 7".to_string()).describe(),
        "Not found: job 7"
    );
}

#[test]
fn transport_errors_classify_by_flags() {
    match GenesisError::from_transport(true, false, "slow".to_string()) {
        GenesisError::TimeoutError(m) => assert_eq!(m, "slow"),
        other => panic!("unexpected classification: {:?}", other),
    }
    match GenesisError::from_transport(false, true, "refused".to_string()) {
        GenesisError::AiCoreError(m) => assert_eq!(m, "Failed to connect to AI Core"),
        other => panic!("unexpected classification: {:?}", other),
    }
    match GenesisError::from_transport(false, false, "odd".to_string()) {
        GenesisError::InternalError(m) => assert_eq!(m, "odd"),
        other => panic!("unexpected classification: {:?}", other),
    }
}

#[test]
fn api_error_carries_code_message_and_details() {
    let e = ApiError::new("TIMEOUT_ERROR", "Request timed out");
    assert_eq!(e.code, "TIMEOUT_ERROR");
    assert_eq!(e.message, "Request timed out");
    assert!(e.details.is_none());
    let e = e.with_details("Timeout error: after 300s");
    assert_eq!(e.details.as_deref(), Some("Timeout error: after 300s"));
}
