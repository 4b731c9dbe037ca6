//! Pure helpers around the cloud and deployment tooling: names, paths and
//! parameter documents are built here, verified; running the tools is the
//! shell's work.

use vstd::prelude::*;

verus! {

use vstd::string::StringExecFns;

/// The resource group that one environment deploys into.
pub fn get_resource_group_name(environment: &str) -> (r: String)
    ensures
        r@ == environment@ + "-euw-rg-mystira-app"@,
{
    let mut r = environment.to_owned();
    r.append("-euw-rg-mystira-app");
    r
}

/// The deployment directory of one environment under the repository root.
pub fn get_deployment_path(repo_root: &str, environment: &str) -> (r: String)
    ensures
        r@ == repo_root@ + "/src/Mystira.App.Infrastructure.Azure/Deployment/"@ + environment@,
{
    let mut r = repo_root.to_owned();
    r.append("/src/Mystira.App.Infrastructure.Azure/Deployment/");
    r.append(environment);
    r
}

/// The word that a flag prints inside a JSON document.
pub open spec fn json_bool(b: bool) -> Seq<char> {
    if b {
        "true"@
    } else {
        "false"@
    }
}

/// The parameters document of one deployment.
pub open spec fn parameters_json_of(
    environment: Seq<char>,
    location: Seq<char>,
    deploy_storage: bool,
    deploy_cosmos: bool,
    deploy_app_service: bool,
) -> Seq<char> {
    "{\"environment\":{\"value\":\""@ + environment + "\"},\"location\":{\"value\":\""@ + location
        + "\"},\"deployStorage\":{\"value\":"@ + json_bool(deploy_storage)
        + "},\"deployCosmos\":{\"value\":"@ + json_bool(deploy_cosmos)
        + "},\"deployAppService\":{\"value\":"@ + json_bool(deploy_app_service) + "}}"@
}

/// Builds the JSON parameters document handed to the deployment tool.
pub fn build_parameters_json(
    environment: &str,
    location: &str,
    deploy_storage: bool,
    deploy_cosmos: bool,
    deploy_app_service: bool,
) -> (r: String)
    ensures
        r@ == parameters_json_of(
            environment@,
            location@,
            deploy_storage,
            deploy_cosmos,
            deploy_app_service,
        ),
{
    let mut r = "{\"environment\":{\"value\":\"".to_owned();
    r.append(environment);
    r.append("\"},\"location\":{\"value\":\"");
    r.append(location);
    r.append("\"},\"deployStorage\":{\"value\":");
    r.append(if deploy_storage {
        "true"
    } else {
        "false"
    });
    r.append("},\"deployCosmos\":{\"value\":");
    r.append(if deploy_cosmos {
        "true"
    } else {
        "false"
    });
    r.append("},\"deployAppService\":{\"value\":");
    r.append(if deploy_app_service {
        "true"
    } else {
        "false"
    });
    r.append("}}");
    proof {
        assert(r@ =~= parameters_json_of(
            environment@,
            location@,
            deploy_storage,
            deploy_cosmos,
            deploy_app_service,
        ));
    }
    r
}

/// The subscription that deployments bill to: what the account tooling
/// reported, with the project's fixed fallback when nothing came back.
pub fn get_subscription_id(cli_result: Result<String, String>) -> (r: String)
    ensures
        cli_result matches Ok(s) ==> r == s,
        cli_result is Err ==> r@ == "22f9eb18-6553-4b7d-9451-47d0195085fe"@,
{
    match cli_result {
        Ok(s) => s,
        Err(_) => "22f9eb18-6553-4b7d-9451-47d0195085fe".to_owned(),
    }
}

/// Judges the account tool's output: its trimmed standard output is the
/// subscription identifier, owed exactly when the tool succeeded with a
/// non-empty answer.
pub fn subscription_id_from_output(success: bool, trimmed_stdout: String) -> (r: Result<
    String,
    String,
>)
    ensures
        r is Ok <==> success && trimmed_stdout@.len() > 0,
        r matches Ok(s) ==> s == trimmed_stdout,
        !success ==> (r matches Err(m) && m@ == "Failed to get subscription ID from Azure CLI"@),
        success && trimmed_stdout@.len() == 0 ==> (r matches Err(m) && m@
            == "No subscription ID found in Azure CLI output"@),
{
    if success {
        if trimmed_stdout.as_str().is_empty() {
            Err("No subscription ID found in Azure CLI output".to_owned())
        } else {
            Ok(trimmed_stdout)
        }
    } else {
        Err("Failed to get subscription ID from Azure CLI".to_owned())
    }
}

/// The conventional install path of the cloud CLI under the given program
/// files directory; whether it exists there is for the shell to observe.
pub fn get_azure_cli_path(program_files: &str) -> (r: String)
    ensures
        r@ == program_files@ + "\\Microsoft SDKs\\Azure\\CLI2\\wbin\\az.cmd"@,
{
    let mut r = program_files.to_owned();
    r.append("\\Microsoft SDKs\\Azure\\CLI2\\wbin\\az.cmd");
    r
}

/// The two places the built console command-line tool can live under the
/// repository root.
pub fn cli_candidate_paths(repo_root: &str) -> (r: (String, String))
    ensures
        r.0@ == repo_root@ + "/tools/Mystira.DevHub.CLI/bin/Debug/net9.0/Mystira.DevHub.CLI.exe"@,
        r.1@ == repo_root@ + "/tools/Mystira.DevHub.CLI/bin/Debug/net9.0/Mystira.DevHub.CLI.dll"@,
{
    let mut exe = repo_root.to_owned();
    exe.append("/tools/Mystira.DevHub.CLI/bin/Debug/net9.0/Mystira.DevHub.CLI.exe");
    let mut dll = repo_root.to_owned();
    dll.append("/tools/Mystira.DevHub.CLI/bin/Debug/net9.0/Mystira.DevHub.CLI.dll");
    (exe, dll)
}

/// Picks the built console command-line tool: the native executable where
/// it exists, else the portable one, else an error naming both places.
/// The two flags are what the shell observed on the file system.
pub fn get_cli_executable_path(repo_root: &str, exe_exists: bool, dll_exists: bool) -> (r: Result<
    String,
    String,
>)
    ensures
        exe_exists ==> (r matches Ok(p) && p@ == repo_root@
            + "/tools/Mystira.DevHub.CLI/bin/Debug/net9.0/Mystira.DevHub.CLI.exe"@),
        !exe_exists && dll_exists ==> (r matches Ok(p) && p@ == repo_root@
            + "/tools/Mystira.DevHub.CLI/bin/Debug/net9.0/Mystira.DevHub.CLI.dll"@),
        !exe_exists && !dll_exists ==> (r matches Err(m) && m@ == "CLI executable not found at: "@
            + repo_root@ + "/tools/Mystira.DevHub.CLI/bin/Debug/net9.0/Mystira.DevHub.CLI.exe"@
            + " or "@ + repo_root@
            + "/tools/Mystira.DevHub.CLI/bin/Debug/net9.0/Mystira.DevHub.CLI.dll"@),
{
    let (exe, dll) = cli_candidate_paths(repo_root);
    if exe_exists {
        Ok(exe)
    } else if dll_exists {
        Ok(dll)
    } else {
        let mut m = "CLI executable not found at: ".to_owned();
        m.append(exe.as_str());
        m.append(" or ");
        m.append(dll.as_str());
        proof {
            assert(m@ =~= "CLI executable not found at: "@ + repo_root@
                + "/tools/Mystira.DevHub.CLI/bin/Debug/net9.0/Mystira.DevHub.CLI.exe"@ + " or "@
                + repo_root@
                + "/tools/Mystira.DevHub.CLI/bin/Debug/net9.0/Mystira.DevHub.CLI.dll"@);
        }
        Err(m)
    }
}

} // verus!
