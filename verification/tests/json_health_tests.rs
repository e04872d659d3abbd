use genesis_backend::json::JsonValue;
use genesis_backend::json::parse_generation_response;
use genesis_backend::health::HealthStatus;
use genesis_backend::health::ProbeOutcome;
use genesis_backend::health::ServiceHealth;
use genesis_backend::health::health_check;
use genesis_backend::health::service_health_of;

fn s(text: &str) -> JsonValue {
    JsonValue::Str(text.to_string())
}

fn file_entry(name: &str, content: &str, language: &str) -> JsonValue {
    JsonValue::Obj(vec![
        ("name".to_string(), s(name)),
        ("content".to_string(), s(content)),
        ("language".to_string(), s(language)),
    ])
}

fn response(files: Vec<JsonValue>, output: Option<&str>) -> JsonValue {
    let mut data = vec![("files".to_string(), JsonValue::Arr(files))];
    if let Some(o) = output {
        data.push(("output".to_string(), s(o)));
    }
    JsonValue::Obj(vec![
        ("success".to_string(), JsonValue::Bool(true)),
        ("data".to_string(), JsonValue::Obj(data)),
    ])
}

#[test]
fn parses_two_files_in_order() {
    let v = response(
        vec![file_entry("index.html", "<html>", "html"), file_entry("app.js", "let x;", "javascript")],
        Some("generated"),
    );
    let (files, output) = parse_generation_response(&v).unwrap();
    assert_eq!(files.len(), 2);
    assert_eq!(files[0].name, "index.html");
    assert_eq!(files[0].content, "<html>");
    assert_eq!(files[0].language, "html");
    assert_eq!(files[1].name, "app.js");
    assert!(files[0].size.is_none());
    assert!(files[0].last_modified.is_none());
    assert_eq!(output, "generated");
}

#[test]
fn missing_output_defaults_to_empty() {
    let v = response(vec![], None);
    let (files, output) = parse_generation_response(&v).unwrap();
    assert!(files.is_empty());
    assert_eq!(output, "");
}

#[test]
fn malformed_payloads_are_rejected() {
    // No data member at all.
    let v = JsonValue::Obj(vec![("success".to_string(), JsonValue::Bool(true))]);
    assert!(parse_generation_response(&v).is_none());

    // files is not an array.
    let v = JsonValue::Obj(vec![(
        "data".to_string(),
        JsonValue::Obj(vec![("files".to_string(), s("nope"))]),
    )]);
    assert!(parse_generation_response(&v).is_none());

    // A file entry missing a required member.
    let broken = JsonValue::Obj(vec![("name".to_string(), s("a"))]);
    let v = response(vec![broken], Some("out"));
    assert!(parse_generation_response(&v).is_none());

    // A non-string output.
    let v = JsonValue::Obj(vec![(
        "data".to_string(),
        JsonValue::Obj(vec![
            ("files".to_string(), JsonValue::Arr(vec![])),
            ("output".to_string(), JsonValue::Int(3)),
        ]),
    )]);
    assert!(parse_generation_response(&v).is_none());
}

#[test]
fn object_lookup_takes_first_match() {
    let v = JsonValue::Obj(vec![
        ("k".to_string(), JsonValue::Int(1)),
        ("k".to_string(), JsonValue::Int(2)),
    ]);
    match v.get("k") {
        Some(JsonValue::Int(n)) => assert_eq!(*n, 1),
        other => panic!("unexpected lookup result: {:?}", other),
    }
    assert!(v.get("absent").is_none());
}

fn entry(name: &str, outcome: ProbeOutcome, now: u64) -> (String, ServiceHealth) {
    (name.to_string(), service_health_of(&outcome, now))
}

fn aggregate(services: Vec<(String, ServiceHealth)>) -> HealthStatus {
    health_check(services, "1.0.0".to_string(), 777, 12)
}

#[test]
fn one_failing_probe_degrades_the_report() {
    let services = vec![
        entry("ai_core", ProbeOutcome::TransportFailed("connection refused".to_string(), 21), 777),
        entry("ollama", ProbeOutcome::Responded(200, 9), 777),
    ];
    let report = aggregate(services);
    assert_eq!(report.status, "degraded");
    assert_eq!(report.services.len(), 2);
    let (name, ai) = &report.services[0];
    assert_eq!(name, "ai_core");
    assert_eq!(ai.status, "unhealthy");
    assert_eq!(ai.error.as_deref(), Some("connection refused"));
    let (name, ollama) = &report.services[1];
    assert_eq!(name, "ollama");
    assert_eq!(ollama.status, "healthy");
    assert!(ollama.error.is_none());
}

#[test]
fn all_probes_healthy_means_healthy() {
    let services = vec![
        entry("ai_core", ProbeOutcome::Responded(204, 3), 777),
        entry("ollama", ProbeOutcome::Responded(200, 4), 777),
    ];
    let report = aggregate(services);
    assert_eq!(report.status, "healthy");
    assert_eq!(report.version, "1.0.0");
    assert_eq!(report.timestamp, 777);
    assert_eq!(report.uptime_millis, 12);
}

#[test]
fn probe_classification_carries_details() {
    let h = service_health_of(&ProbeOutcome::Responded(503, 15), 9);
    assert_eq!(h.status, "unhealthy");
    assert_eq!(h.error.as_deref(), Some("HTTP 503"));
    assert_eq!(h.response_time, Some(15));
    assert_eq!(h.last_check, 9);

    let h = service_health_of(&ProbeOutcome::TimedOut(5000), 9);
    assert_eq!(h.status, "unhealthy");
    assert_eq!(h.error.as_deref(), Some("Timeout"));

    let h = service_health_of(&ProbeOutcome::Responded(299, 1), 9);
    assert_eq!(h.status, "healthy");
}
