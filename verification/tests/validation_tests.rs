use genesis_backend::validation::GenerateRequest;
use genesis_backend::validation::RateLimiter;
use genesis_backend::validation::contains_sub;
use genesis_backend::validation::validate_generate_request;
use genesis_backend::error::GenesisError;

const NOW: u64 = 1_000_000;
const WINDOW: u64 = 60_000;

#[test]
fn test_rate_limiter() {
    let mut limiter = RateLimiter::new(5, WINDOW);

    // Should allow first 5 requests
    for i in 0..5 {
        assert!(limiter.is_allowed("test_client", NOW), "Request {} should be allowed", i);
    }

    // Should block the 6th request
    assert!(!limiter.is_allowed("test_client", NOW), "6th request should be blocked");

    // Should have 0 remaining requests
    assert_eq!(limiter.get_remaining_requests("test_client", NOW), 0);
}

#[test]
fn test_validate_generate_request() {
    let valid_request = GenerateRequest {
        prompt: "Create a simple React component".to_string(),
        backend: Some("ollama".to_string()),
    };

    assert_eq!(valid_request.prompt, "Create a simple React component");
    assert_eq!(valid_request.backend, Some("ollama".to_string()));
}

#[test]
fn rate_limiter_window_elapses() {
    let mut limiter = RateLimiter::new(5, WINDOW);
    for _ in 0..5 {
        assert!(limiter.is_allowed("client", NOW));
    }
    assert!(!limiter.is_allowed("client", NOW));
    // Exactly at the window edge the old admissions have expired.
    assert!(limiter.is_allowed("client", NOW + WINDOW));
}

#[test]
fn rate_limiter_remaining_counts_down() {
    let mut limiter = RateLimiter::new(5, WINDOW);
    assert_eq!(limiter.get_remaining_requests("c", NOW), 5);
    for n in 1..=5u64 {
        assert!(limiter.is_allowed("c", NOW));
        assert_eq!(limiter.get_remaining_requests("c", NOW), (5 - n) as usize);
    }
    assert!(!limiter.is_allowed("c", NOW));
    assert_eq!(limiter.get_remaining_requests("c", NOW), 0);
}

#[test]
fn rate_limiter_clients_are_isolated() {
    let mut limiter = RateLimiter::new(1, WINDOW);
    assert!(limiter.is_allowed("a", NOW));
    assert!(!limiter.is_allowed("a", NOW));
    assert!(limiter.is_allowed("b", NOW));
    assert_eq!(limiter.get_remaining_requests("b", NOW), 0);
}

fn validation_error_text(r: Result<(), GenesisError>) -> String {
    match r {
        Err(GenesisError::ValidationError(m)) => m,
        other => panic!("expected a validation error, got {:?}", other),
    }
}

#[test]
fn validate_accepts_a_valid_request() {
    let req = GenerateRequest {
        prompt: "Create a simple React component".to_string(),
        backend: Some("openai".to_string()),
    };
    assert!(validate_generate_request(&req).is_ok());
    let req = GenerateRequest { prompt: "Build a landing page".to_string(), backend: None };
    assert!(validate_generate_request(&req).is_ok());
}

#[test]
fn validate_rejects_short_and_long_prompts() {
    let req = GenerateRequest { prompt: "too short".to_string(), backend: None };
    assert_eq!(
        validation_error_text(validate_generate_request(&req)),
        "prompt: Prompt must be between 10 and 2000 characters"
    );
    let req = GenerateRequest { prompt: "x".repeat(2001), backend: None };
    assert_eq!(
        validation_error_text(validate_generate_request(&req)),
        "prompt: Prompt must be between 10 and 2000 characters"
    );
    let req = GenerateRequest { prompt: "x".repeat(2000), backend: None };
    assert!(validate_generate_request(&req).is_ok());
}

#[test]
fn validate_rejects_unknown_backend() {
    let req = GenerateRequest {
        prompt: "Build a landing page".to_string(),
        backend: Some("gpt4all".to_string()),
    };
    assert_eq!(
        validation_error_text(validate_generate_request(&req)),
        "backend: Backend must be 'ollama' or 'openai'"
    );
}

#[test]
fn validate_rejects_blank_prompt() {
    let req = GenerateRequest { prompt: " \t\n\r      \n".to_string(), backend: None };
    assert_eq!(
        validation_error_text(validate_generate_request(&req)),
        "Prompt cannot be empty"
    );
}

#[test]
fn validate_rejects_harmful_keywords_case_insensitively() {
    // Lowercased before the check: an uppercase keyword must still be caught.
    let req = GenerateRequest {
        prompt: "please DELETE all my tables".to_string(),
        backend: None,
    };
    assert_eq!(
        validation_error_text(validate_generate_request(&req)),
        "Prompt contains potentially harmful keywords"
    );
    let req = GenerateRequest { prompt: "become the admin now".to_string(), backend: None };
    assert_eq!(
        validation_error_text(validate_generate_request(&req)),
        "Prompt contains potentially harmful keywords"
    );
}

#[test]
fn substring_search_finds_runs() {
    assert!(contains_sub("a delete b", "delete"));
    assert!(contains_sub("delete", "delete"));
    assert!(!contains_sub("delet", "delete"));
    assert!(!contains_sub("", "a"));
    assert!(contains_sub("anything", ""));
}
