use oqto::state::{background_sync_enabled, templates_pull_args, MmryState, TemplatesRepoType};

#[test]
fn mmry_defaults() {
    let s = MmryState::default();
    assert!(!s.enabled);
    assert!(s.single_user);
    assert_eq!(s.local_service_url, "http://localhost:8081");
    assert_eq!(s.host_service_url, "http://localhost:8081");
    assert_eq!(s.host_api_key, None);
    assert_eq!(s.default_model, "Xenova/all-MiniLM-L6-v2");
    assert_eq!(s.dimension, 384);
    assert_eq!(s.user_base_port, 48_000);
    assert_eq!(s.user_port_range, 1_000);
}

#[test]
fn templates_sync_only_for_remote_repositories() {
    assert!(background_sync_enabled(true, TemplatesRepoType::Remote, true));
    assert!(!background_sync_enabled(false, TemplatesRepoType::Remote, true));
    assert!(!background_sync_enabled(true, TemplatesRepoType::Local, true));
    assert!(!background_sync_enabled(true, TemplatesRepoType::Remote, false));
}

#[test]
fn templates_sync_runs_a_fast_forward_pull() {
    assert_eq!(templates_pull_args("/srv/templates"), vec!["-C", "/srv/templates", "pull", "--ff-only"]);
}
