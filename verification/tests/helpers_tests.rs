//! Tests of the pure tooling helpers: names, paths and parameter documents.

use devhub_core::helpers::{
    build_parameters_json, get_azure_cli_path, get_cli_executable_path, get_deployment_path,
    get_resource_group_name, get_subscription_id, subscription_id_from_output,
};

#[test]
fn test_get_resource_group_name() {
    assert_eq!(get_resource_group_name("dev"), "dev-euw-rg-mystira-app");
    assert_eq!(get_resource_group_name("prod"), "prod-euw-rg-mystira-app");
    assert_eq!(get_resource_group_name("test"), "test-euw-rg-mystira-app");
}

#[test]
fn helpers_test_get_resource_group_name() {
    assert_eq!(get_resource_group_name("dev"), "dev-euw-rg-mystira-app");
    assert_eq!(get_resource_group_name("prod"), "prod-euw-rg-mystira-app");
    assert_eq!(get_resource_group_name("test"), "test-euw-rg-mystira-app");
}

#[test]
fn test_get_deployment_path() {
    let path = get_deployment_path("/repo", "dev");
    assert_eq!(path, "/repo/src/Mystira.App.Infrastructure.Azure/Deployment/dev");

    let path2 = get_deployment_path("C:\\repo", "prod");
    assert!(path2.contains("prod") && path2.contains("Deployment"));
}

#[test]
fn helpers_test_get_deployment_path() {
    let path = get_deployment_path("/repo", "dev");
    assert_eq!(path, "/repo/src/Mystira.App.Infrastructure.Azure/Deployment/dev");
}

#[test]
fn test_get_azure_cli_path() {
    let path = get_azure_cli_path("C:\\Program Files");
    // Path should be non-empty
    assert!(!path.is_empty());
    // Should contain az.cmd or reference Azure CLI
    assert!(path.contains("az") || path.contains("Azure"));
}

#[test]
fn helpers_test_get_azure_cli_path() {
    let path = get_azure_cli_path("C:\\Program Files");
    // Path should be non-empty
    assert!(!path.is_empty());
    // Should contain az.cmd
    assert!(path.contains("az.cmd") || path.contains("az"));
}

#[test]
fn parameters_json_is_exact() {
    let json = build_parameters_json("dev", "westeurope", true, false, true);
    assert_eq!(
        json,
        "{\"environment\":{\"value\":\"dev\"},\"location\":{\"value\":\"westeurope\"},\
         \"deployStorage\":{\"value\":true},\"deployCosmos\":{\"value\":false},\
         \"deployAppService\":{\"value\":true}}"
    );
}

#[test]
fn subscription_id_falls_back() {
    assert_eq!(
        get_subscription_id(Ok("my-subscription".to_string())),
        "my-subscription"
    );
    assert_eq!(
        get_subscription_id(Err("no account".to_string())),
        "22f9eb18-6553-4b7d-9451-47d0195085fe"
    );
}

#[test]
fn subscription_output_judgement() {
    assert_eq!(
        subscription_id_from_output(true, "abc-123".to_string()),
        Ok("abc-123".to_string())
    );
    assert_eq!(
        subscription_id_from_output(true, "".to_string()),
        Err("No subscription ID found in Azure CLI output".to_string())
    );
    assert_eq!(
        subscription_id_from_output(false, "whatever".to_string()),
        Err("Failed to get subscription ID from Azure CLI".to_string())
    );
}

#[test]
fn cli_executable_pick_and_error() {
    assert_eq!(
        get_cli_executable_path("/repo", true, true),
        Ok("/repo/tools/Mystira.DevHub.CLI/bin/Debug/net9.0/Mystira.DevHub.CLI.exe".to_string())
    );
    assert_eq!(
        get_cli_executable_path("/repo", false, true),
        Ok("/repo/tools/Mystira.DevHub.CLI/bin/Debug/net9.0/Mystira.DevHub.CLI.dll".to_string())
    );
    let err = get_cli_executable_path("/repo", false, false).unwrap_err();
    assert!(err.starts_with("CLI executable not found at: "));
    assert!(err.contains(".exe") && err.contains(".dll"));
}
