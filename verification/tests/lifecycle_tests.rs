//! Tests of the registry, the lifecycle protocol, statuses, health checks,
//! ports, log events, errors and configuration merging.

use devhub_core::config::AppConfig;
use devhub_core::lifecycle::{
    build_outcome, complete_start, get_service_paths, health_from_status, kill_action_for,
    kill_poll_continue, prebuild_stop_all, start_precheck, status_from_snapshot, stop_service,
    KillAction,
};
use devhub_core::logstream::{make_log_event, PhaseTag, StreamKind};
use devhub_core::ports::{extract_https_port, port_from_launch_settings};
use devhub_core::registry::ServiceRegistry;
use devhub_core::types::{AppError, LifecycleError, ServiceInfo};

#[test]
fn start_rejects_second_start_until_stop() {
    let mut reg = ServiceRegistry::new();
    let name = "api".to_string();
    let url = Some("https://localhost:7096/swagger".to_string());
    let first = complete_start(&mut reg, &name, 7096, &url, Some(42));
    assert!(first.is_ok());
    let st = first.unwrap();
    assert_eq!(st.name, "api");
    assert!(st.running);
    assert_eq!(st.port, Some(7096));

    // A concurrent start of the same name, issued before any stop, fails.
    let second = complete_start(&mut reg, &name, 7096, &url, Some(43));
    assert_eq!(second.unwrap_err(), LifecycleError::AlreadyRunning);

    // After a stop the name is free again.
    assert!(stop_service(&mut reg, "api").is_ok());
    assert!(complete_start(&mut reg, &name, 7096, &url, Some(44)).is_ok());
}

#[test]
fn stop_removes_unconditionally() {
    let mut reg = ServiceRegistry::new();
    let name = "pwa".to_string();
    complete_start(&mut reg, &name, 7000, &None, None).unwrap();
    assert!(reg.contains("pwa"));

    // The record leaves the registry before any kill is attempted; the
    // kill plan is handed out and its failure cannot restore the record.
    let (info, action) = stop_service(&mut reg, "pwa").unwrap();
    assert_eq!(info.name, "pwa");
    assert_eq!(action, KillAction::ByPort(7000));
    assert!(!reg.contains("pwa"));
    let snapshot = reg.get_all();
    assert!(snapshot.is_empty());
}

#[test]
fn stop_of_absent_service_fails() {
    let mut reg = ServiceRegistry::new();
    assert_eq!(
        stop_service(&mut reg, "api").unwrap_err(),
        LifecycleError::NotRunning
    );
}

#[test]
fn prebuild_stops_every_service_first() {
    let mut reg = ServiceRegistry::new();
    let admin = "admin-api".to_string();
    let pwa = "pwa".to_string();
    complete_start(&mut reg, &admin, 7097, &None, Some(1234)).unwrap();
    complete_start(&mut reg, &pwa, 7000, &None, None).unwrap();

    let plans = prebuild_stop_all(&mut reg);
    assert_eq!(plans.len(), 2);
    let admin_plan = plans.iter().find(|p| p.0.name == "admin-api").unwrap();
    let pwa_plan = plans.iter().find(|p| p.0.name == "pwa").unwrap();
    // The captured identifier drives the kill where one exists, the fixed
    // port where none does.
    assert_eq!(admin_plan.1, KillAction::ByPid(1234));
    assert_eq!(pwa_plan.1, KillAction::ByPort(7000));

    // Both are gone from the registry and from the status output.
    assert!(!reg.contains("admin-api"));
    assert!(!reg.contains("pwa"));
    assert!(reg.get_all().is_empty());

    // The build then proceeds for the one requested service alone, and
    // prebuild never starts the run step: `api` stays absent.
    let paths = start_precheck(&reg, "api", "/repo", true, true).unwrap();
    assert_eq!(paths.port, 7096);
    assert!(build_outcome(true).is_ok());
    assert!(!reg.contains("api"));
}

#[test]
fn precheck_error_order() {
    let mut reg = ServiceRegistry::new();
    let api = "api".to_string();
    complete_start(&mut reg, &api, 7096, &None, Some(7)).unwrap();

    assert_eq!(
        start_precheck(&reg, "api", "/repo", true, true).unwrap_err(),
        LifecycleError::AlreadyRunning
    );
    assert_eq!(
        start_precheck(&reg, "pwa", "", true, true).unwrap_err(),
        LifecycleError::InvalidEnvironment
    );
    assert_eq!(
        start_precheck(&reg, "pwa", "/repo", false, true).unwrap_err(),
        LifecycleError::InvalidEnvironment
    );
    assert_eq!(
        start_precheck(&reg, "database", "/repo", true, true).unwrap_err(),
        LifecycleError::UnknownService
    );
    assert_eq!(
        start_precheck(&reg, "pwa", "/repo", true, false).unwrap_err(),
        LifecycleError::InvalidEnvironment
    );
    let ok = start_precheck(&reg, "pwa", "/repo", true, true).unwrap();
    assert_eq!(ok.project_path, "/repo/src/Mystira.App.PWA");
    assert_eq!(ok.port, 7000);
    assert_eq!(ok.url, Some("http://localhost:7000".to_string()));
}

#[test]
fn service_paths_are_fixed() {
    let api = get_service_paths("api", "/repo").unwrap();
    assert_eq!(api.project_path, "/repo/src/Mystira.App.Api");
    assert_eq!(api.port, 7096);
    assert_eq!(api.url, Some("https://localhost:7096/swagger".to_string()));

    let admin = get_service_paths("admin-api", "/repo").unwrap();
    assert_eq!(admin.project_path, "/repo/src/Mystira.App.Admin.Api");
    assert_eq!(admin.port, 7097);

    assert_eq!(
        get_service_paths("unknown", "/repo").unwrap_err(),
        LifecycleError::UnknownService
    );
}

#[test]
fn build_failure_is_fatal() {
    assert_eq!(build_outcome(false).unwrap_err(), LifecycleError::BuildFailed);
    assert!(build_outcome(true).is_ok());
}

#[test]
fn kill_poll_is_bounded() {
    assert!(kill_poll_continue(0, true));
    assert!(kill_poll_continue(49, true));
    assert!(!kill_poll_continue(50, true));
    assert!(!kill_poll_continue(0, false));
}

#[test]
fn kill_action_prefers_pid() {
    let with_pid = ServiceInfo {
        name: "api".to_string(),
        port: 7096,
        url: None,
        pid: Some(9),
    };
    let without_pid = ServiceInfo {
        name: "pwa".to_string(),
        port: 7000,
        url: None,
        pid: None,
    };
    assert_eq!(kill_action_for(&with_pid), KillAction::ByPid(9));
    assert_eq!(kill_action_for(&without_pid), KillAction::ByPort(7000));
}

#[test]
fn status_reports_only_live_captured_processes() {
    let records = vec![
        ServiceInfo { name: "api".to_string(), port: 7096, url: None, pid: Some(1) },
        ServiceInfo { name: "admin-api".to_string(), port: 7097, url: None, pid: Some(2) },
        ServiceInfo { name: "pwa".to_string(), port: 7000, url: None, pid: None },
    ];
    let alive = vec![true, false, true];
    let statuses = status_from_snapshot(&records, &alive);
    assert_eq!(statuses.len(), 1);
    assert_eq!(statuses[0].name, "api");
    assert!(statuses[0].running);
    assert_eq!(statuses[0].port, Some(7096));
}

#[test]
fn health_check_is_success_status() {
    // A server answering 200 is healthy; connection refused (no status at
    // all) is unhealthy, without any error escaping.
    assert!(health_from_status(Some(200)));
    assert!(health_from_status(Some(204)));
    assert!(!health_from_status(Some(301)));
    assert!(!health_from_status(Some(500)));
    assert!(!health_from_status(None));
}

#[test]
fn https_port_extraction() {
    assert_eq!(
        extract_https_port("https://localhost:7096;http://localhost:5260"),
        Some(7096)
    );
    assert_eq!(extract_https_port("https://localhost:7000"), Some(7000));
    assert_eq!(extract_https_port("7096"), Some(7096));
    assert_eq!(extract_https_port("https://localhost"), None);
    assert_eq!(extract_https_port(""), None);
    assert_eq!(extract_https_port("https://localhost:99999"), None);
}

#[test]
fn port_from_launch_settings_document() {
    let content = r#"{
        "profiles": {
            "https": {
                "applicationUrl": "https://localhost:7096;http://localhost:5260"
            }
        }
    }"#;
    assert_eq!(port_from_launch_settings(content), Ok(7096));

    let no_profile = r#"{"profiles": {}}"#;
    assert_eq!(
        port_from_launch_settings(no_profile),
        Err("Could not find port in launchSettings.json".to_string())
    );

    let err = port_from_launch_settings("not json at all").unwrap_err();
    assert!(err.starts_with("Failed to parse launchSettings.json: "));
}

#[test]
fn log_events_carry_the_line_unchanged() {
    let e = make_log_event(
        "api",
        StreamKind::Stderr,
        PhaseTag::Build,
        "error CS2001".to_string(),
        1234,
    );
    assert_eq!(e.service, "api");
    assert_eq!(e.stream, StreamKind::Stderr);
    assert_eq!(e.phase, PhaseTag::Build);
    assert_eq!(e.message, "error CS2001");
    assert_eq!(e.timestamp_ms, 1234);
    assert_eq!(StreamKind::Stdout.label(), "stdout");
    assert_eq!(StreamKind::Stderr.label(), "stderr");
    assert_eq!(PhaseTag::Build.label(), "build");
    assert_eq!(PhaseTag::Run.label(), "run");
}

#[test]
fn app_error_messages() {
    let e = AppError::CommandFailed {
        command: "az".to_string(),
        details: "boom".to_string(),
    };
    assert_eq!(e.message(), "Command 'az' failed: boom");
    assert_eq!(
        AppError::InvalidPath("/nope".to_string()).message(),
        "Invalid path: /nope"
    );
    assert_eq!(AppError::Other("plain".to_string()).message(), "plain");
    assert_eq!(
        AppError::from("oops".to_string()).message(),
        "oops"
    );
    assert_eq!(
        AppError::NetworkError("reset".to_string()).message(),
        "Network error: reset"
    );
    assert_eq!(
        AppError::ResourceNotFound("vm".to_string()).message(),
        "Resource not found: vm"
    );
    assert_eq!(
        AppError::PermissionDenied("token".to_string()).message(),
        "Permission denied: token"
    );
    assert_eq!(
        AppError::ConfigurationError("bad json".to_string()).message(),
        "Configuration error: bad json"
    );
    assert!(AppError::AzureCliMissing { winget_available: true }
        .message()
        .contains("winget"));
    assert!(AppError::AzureCliMissing { winget_available: false }
        .message()
        .contains("install it from"));
    assert_eq!(
        LifecycleError::AlreadyRunning.message(),
        "service is already running"
    );
    assert_eq!(LifecycleError::NotRunning.message(), "service is not running");
    assert_eq!(
        LifecycleError::SpawnFailed.message(),
        "failed to start the service process"
    );
    assert_eq!(LifecycleError::LockError.message(), "lock error");
    assert_eq!(
        LifecycleError::InvalidEnvironment.message(),
        "repository root or project directory does not exist"
    );
    assert_eq!(LifecycleError::BuildFailed.message(), "build failed");
    assert_eq!(LifecycleError::UnknownService.message(), "unknown service");
}

#[test]
fn config_merge_prefers_set_fields() {
    let mut base = AppConfig::default();
    let mut other = AppConfig::default();
    other.azure.default_subscription = Some("sub-from-file".to_string());
    other.azure.default_location = "".to_string();
    other.cache.enabled = false;
    other.retry.max_retries = 7;
    base.merge(other);
    assert_eq!(
        base.azure.default_subscription,
        Some("sub-from-file".to_string())
    );
    // An empty location does not override the default.
    assert_eq!(base.azure.default_location, "westeurope");
    assert!(!base.cache.enabled);
    assert_eq!(base.retry.max_retries, 7);
    assert_eq!(base.rate_limit.azure_requests_per_minute, 30);
}
