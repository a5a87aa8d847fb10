use evolve_desktop::commands::{execute_sql, get_app_version, greet};
use evolve_desktop::database::{
    check_api_connection, execute_query, get_api_config, initialize_database,
};
use evolve_desktop::diagnostics::HostEnvironment;
use evolve_desktop::platform::PlatformProbe;
use evolve_desktop::sync::{get_sync_status, start_background_sync, sync_module, sync_status};

const REJECTION: &str = "Local database queries not supported. Use API endpoints instead.";

#[test]
fn greet_formats_the_greeting() {
    assert_eq!(greet("Ada"), "Hello, Ada! Welcome to EvolveApp.");
    assert_eq!(greet(""), "Hello, ! Welcome to EvolveApp.");
}

#[test]
fn get_app_version_returns_the_build_version() {
    let env = HostEnvironment {
        app_version: "0.9.1".to_string(),
        os: "macos".to_string(),
        architecture: "aarch64".to_string(),
        working_dir: ".".to_string(),
        probe: PlatformProbe::Vacuous,
    };
    assert_eq!(get_app_version(&env), "0.9.1");
}

#[test]
fn execute_sql_always_rejects() {
    for query in ["SELECT 1", "DROP TABLE users", " ", "", "select * from t where a = 'b'"] {
        assert_eq!(execute_sql(query.to_string()), Err(REJECTION.to_string()));
        assert_eq!(execute_query(query), Err(REJECTION.to_string()));
    }
}

#[test]
fn api_config_defaults_to_localhost() {
    let config = get_api_config(None, None);
    assert_eq!(config.base_url, "http://localhost:8000");
    assert_eq!(config.api_key, None);
}

#[test]
fn api_config_takes_environment_values() {
    let config =
        get_api_config(Some("https://api.example.org".to_string()), Some("k-123".to_string()));
    assert_eq!(config.base_url, "https://api.example.org");
    assert_eq!(config.api_key, Some("k-123".to_string()));
    let keyed = get_api_config(None, Some("k".to_string()));
    assert_eq!(keyed.base_url, "http://localhost:8000");
    assert_eq!(keyed.api_key, Some("k".to_string()));
}

#[test]
fn data_layer_initialises_without_error() {
    assert_eq!(initialize_database(), Ok(()));
    assert_eq!(start_background_sync(), Ok(()));
}

#[test]
fn api_connection_counts_as_reachable() {
    let config = get_api_config(None, None);
    assert_eq!(check_api_connection(&config), Ok(true));
}

#[test]
fn sync_status_has_nothing_pending() {
    let status = sync_status(false, "2024-01-01T00:00:00+00:00".to_string());
    assert!(!status.connected);
    assert_eq!(status.last_sync, Some("2024-01-01T00:00:00+00:00".to_string()));
    assert_eq!(status.pending_operations, 0);
}

#[test]
fn get_sync_status_reports_now() {
    let config = get_api_config(None, None);
    let status = get_sync_status(&config).unwrap();
    assert!(status.connected);
    assert_eq!(status.pending_operations, 0);
    let last_sync = status.last_sync.unwrap();
    assert!(chrono::DateTime::parse_from_rfc3339(&last_sync).is_ok());
}

#[test]
fn sync_module_answers_for_any_module() {
    let config = get_api_config(None, None);
    for module in ["crm", "", "inventory-42"] {
        let status = sync_module(module, &config).unwrap();
        assert!(status.connected);
        assert!(status.last_sync.is_some());
        assert_eq!(status.pending_operations, 0);
    }
}
