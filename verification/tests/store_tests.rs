use genesis_backend::models::ProjectQuery;
use genesis_backend::models::ProjectRecord;
use genesis_backend::models::ProjectStatus;
use genesis_backend::models::ProjectUpdate;
use genesis_backend::store::JobStore;

fn record(id: u64, created_at: u64) -> ProjectRecord {
    ProjectRecord::new(id, format!("prompt number {}", id), "ollama".to_string(), created_at)
}

fn all_query() -> ProjectQuery {
    ProjectQuery { project_id: None, status: None, limit: None, skip: None }
}

#[test]
fn create_and_get_round_trip() {
    let mut store = JobStore::new();
    store.create_project(record(1, 10)).unwrap();
    let got = store.get_project(1).unwrap();
    assert_eq!(got.project_id, 1);
    assert_eq!(got.created_at, 10);
    assert!(store.get_project(2).is_none());
}

#[test]
fn duplicate_ids_are_refused() {
    let mut store = JobStore::new();
    store.create_project(record(1, 10)).unwrap();
    match store.create_project(record(1, 20)) {
        Err(genesis_backend::error::GenesisError::DatabaseError(m)) => {
            assert_eq!(m, "duplicate project id")
        }
        other => panic!("expected a database error, got {:?}", other),
    }
    assert_eq!(store.records.len(), 1);
    assert_eq!(store.get_project(1).unwrap().created_at, 10);
}

#[test]
fn partial_update_touches_only_named_fields() {
    let mut store = JobStore::new();
    store.create_project(record(1, 10)).unwrap();
    let update = ProjectUpdate {
        status: Some(ProjectStatus::Generating),
        files: None,
        output: None,
        metadata: None,
    };
    store.update_project(1, update, 50).unwrap();
    let got = store.get_project(1).unwrap();
    assert!(matches!(got.status, ProjectStatus::Generating));
    assert_eq!(got.updated_at, 50);
    assert_eq!(got.created_at, 10);
    assert_eq!(got.prompt, "prompt number 1");
    assert!(got.files.is_empty());

    let update = ProjectUpdate {
        status: None,
        files: None,
        output: Some("text".to_string()),
        metadata: Some("{\"k\":1}".to_string()),
    };
    store.update_project(1, update, 60).unwrap();
    let got = store.get_project(1).unwrap();
    assert!(matches!(got.status, ProjectStatus::Generating));
    assert_eq!(got.output, "text");
    assert_eq!(got.metadata.as_deref(), Some("{\"k\":1}"));
    assert_eq!(got.updated_at, 60);
}

#[test]
fn update_of_unknown_id_is_not_found() {
    let mut store = JobStore::new();
    let update = ProjectUpdate { status: None, files: None, output: None, metadata: None };
    match store.update_project(9, update, 50) {
        Err(genesis_backend::error::GenesisError::NotFoundError(m)) => {
            assert_eq!(m, "Project not found")
        }
        other => panic!("expected a not-found error, got {:?}", other),
    }
}

#[test]
fn delete_removes_exactly_one() {
    let mut store = JobStore::new();
    store.create_project(record(1, 10)).unwrap();
    store.create_project(record(2, 20)).unwrap();
    assert!(store.delete_project(1));
    assert!(!store.delete_project(1));
    assert_eq!(store.records.len(), 1);
    assert!(store.get_project(2).is_some());
}

#[test]
fn listing_orders_newest_first_regardless_of_insertion() {
    let mut store = JobStore::new();
    // Inserted out of order on purpose.
    store.create_project(record(1, 300)).unwrap();
    store.create_project(record(2, 100)).unwrap();
    store.create_project(record(3, 500)).unwrap();
    store.create_project(record(4, 200)).unwrap();
    store.create_project(record(5, 400)).unwrap();

    let listed = store.list_projects(&all_query());
    let created: Vec<u64> = listed.iter().map(|p| p.created_at).collect();
    assert_eq!(created, vec![500, 400, 300, 200, 100]);
    let ids: Vec<u64> = listed.iter().map(|p| p.project_id).collect();
    assert_eq!(ids, vec![3, 5, 1, 4, 2]);
}

#[test]
fn listing_applies_skip_and_limit_after_sorting() {
    let mut store = JobStore::new();
    for id in 1..=5u64 {
        store.create_project(record(id, id * 100)).unwrap();
    }
    let q = ProjectQuery { project_id: None, status: None, limit: Some(2), skip: Some(1) };
    let listed = store.list_projects(&q);
    let created: Vec<u64> = listed.iter().map(|p| p.created_at).collect();
    assert_eq!(created, vec![400, 300]);

    let q = ProjectQuery { project_id: None, status: None, limit: Some(0), skip: None };
    assert_eq!(store.list_projects(&q).len(), 5);

    let q = ProjectQuery { project_id: None, status: None, limit: None, skip: Some(10) };
    assert_eq!(store.list_projects(&q).len(), 0);
}

#[test]
fn listing_filters_by_status_and_id() {
    let mut store = JobStore::new();
    store.create_project(record(1, 100)).unwrap();
    store.create_project(record(2, 200)).unwrap();
    let update = ProjectUpdate {
        status: Some(ProjectStatus::Generating),
        files: None,
        output: None,
        metadata: None,
    };
    store.update_project(2, update, 250).unwrap();

    let q = ProjectQuery {
        project_id: None,
        status: Some(ProjectStatus::Generating),
        limit: None,
        skip: None,
    };
    let listed = store.list_projects(&q);
    assert_eq!(listed.len(), 1);
    assert_eq!(listed[0].project_id, 2);

    let q = ProjectQuery { project_id: Some(1), status: None, limit: None, skip: None };
    let listed = store.list_projects(&q);
    assert_eq!(listed.len(), 1);
    assert_eq!(listed[0].project_id, 1);
}

#[test]
fn stats_count_by_status() {
    let mut store = JobStore::new();
    for id in 1..=4u64 {
        store.create_project(record(id, id)).unwrap();
    }
    let update = ProjectUpdate {
        status: Some(ProjectStatus::Failed),
        files: None,
        output: Some("boom".to_string()),
        metadata: None,
    };
    store.update_project(4, update, 50).unwrap();
    let (pending, generating, completed, failed) = store.get_project_stats();
    assert_eq!((pending, generating, completed, failed), (3, 0, 0, 1));
}
