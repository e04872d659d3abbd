use genesis_backend::models::GeneratedFile;
use genesis_backend::models::ProjectRecord;
use genesis_backend::models::ProjectStatus;

#[test]
fn new_record_starts_pending_and_empty() {
    let r = ProjectRecord::new(7, "Build a landing page".to_string(), "openai".to_string(), 42);
    assert_eq!(r.project_id, 7);
    assert!(matches!(r.status, ProjectStatus::Pending));
    assert!(r.files.is_empty());
    assert_eq!(r.output, "");
    assert_eq!(r.created_at, 42);
    assert_eq!(r.updated_at, 42);
    assert_eq!(r.backend, "openai");
    assert!(r.metadata.is_none());
}

#[test]
fn record_mutators_refresh_updated_at_only() {
    let mut r = ProjectRecord::new(7, "Build a landing page".to_string(), "ollama".to_string(), 42);
    r.update_status(ProjectStatus::Generating, 50);
    assert!(matches!(r.status, ProjectStatus::Generating));
    assert_eq!(r.updated_at, 50);
    assert_eq!(r.created_at, 42);

    r.add_files(
        vec![GeneratedFile {
            name: "a".to_string(),
            content: "b".to_string(),
            language: "c".to_string(),
            size: Some(1),
            last_modified: None,
        }],
        60,
    );
    assert_eq!(r.files.len(), 1);
    assert_eq!(r.updated_at, 60);

    r.set_output("done".to_string(), 70);
    assert_eq!(r.output, "done");
    assert_eq!(r.updated_at, 70);
    assert!(matches!(r.status, ProjectStatus::Generating));
}
