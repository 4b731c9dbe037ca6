//! Common data types: the application error taxonomy, the lifecycle error
//! taxonomy, and the service records that the registry stores.

use vstd::prelude::*;

verus! {

use vstd::string::StringExecFns;

/// Centralized error type for application-level helpers.
pub enum AppError {
    /// The cloud CLI is not installed or not available.
    AzureCliMissing { winget_available: bool },
    /// Command execution failed.
    CommandFailed { command: String, details: String },
    /// Invalid file or directory path.
    InvalidPath(String),
    /// Network or HTTP request failure.
    NetworkError(String),
    /// Resource not found.
    ResourceNotFound(String),
    /// Permission denied or unauthorized.
    PermissionDenied(String),
    /// Configuration error.
    ConfigurationError(String),
    /// Generic error with a message.
    Other(String),
}

/// The message that `AppError::message` renders for each variant.
pub open spec fn app_error_message(e: AppError) -> Seq<char> {
    match e {
        AppError::AzureCliMissing { winget_available } => if winget_available {
            "Azure CLI is not installed. You can install it automatically using winget."@
        } else {
            "Azure CLI is not installed. Please install it from https://aka.ms/installazurecliwindows"@
        },
        AppError::CommandFailed { command, details } => "Command '"@ + command@ + "' failed: "@
            + details@,
        AppError::InvalidPath(path) => "Invalid path: "@ + path@,
        AppError::NetworkError(msg) => "Network error: "@ + msg@,
        AppError::ResourceNotFound(resource) => "Resource not found: "@ + resource@,
        AppError::PermissionDenied(msg) => "Permission denied: "@ + msg@,
        AppError::ConfigurationError(msg) => "Configuration error: "@ + msg@,
        AppError::Other(msg) => msg@,
    }
}

impl AppError {
    /// Human-readable message for the error, as the console shows it.
    pub fn message(&self) -> (r: String)
        ensures
            r@ == app_error_message(*self),
    {
        match self {
            AppError::AzureCliMissing { winget_available } => {
                if *winget_available {
                    "Azure CLI is not installed. You can install it automatically using winget.".to_owned()
                } else {
                    "Azure CLI is not installed. Please install it from https://aka.ms/installazurecliwindows".to_owned()
                }
            },
            AppError::CommandFailed { command, details } => {
                let mut m = "Command '".to_owned();
                m.append(command.as_str());
                m.append("' failed: ");
                m.append(details.as_str());
                proof {
                    assert(m@ =~= app_error_message(*self));
                }
                m
            },
            AppError::InvalidPath(path) => prefixed("Invalid path: ", path),
            AppError::NetworkError(msg) => prefixed("Network error: ", msg),
            AppError::ResourceNotFound(resource) => prefixed("Resource not found: ", resource),
            AppError::PermissionDenied(msg) => prefixed("Permission denied: ", msg),
            AppError::ConfigurationError(msg) => prefixed("Configuration error: ", msg),
            AppError::Other(msg) => msg.clone(),
        }
    }
}

/// A copy of `rest` with `prefix` put in front of it.
pub fn prefixed(prefix: &str, rest: &String) -> (r: String)
    ensures
        r@ == prefix@ + rest@,
{
    let mut m = prefix.to_owned();
    m.append(rest.as_str());
    m
}

impl From<String> for AppError {
    /// A bare string becomes the generic variant.
    fn from(s: String) -> Self {
        AppError::Other(s)
    }
}

impl vstd::std_specs::convert::FromSpecImpl<String> for AppError {
    open spec fn obeys_from_spec() -> bool {
        true
    }

    open spec fn from_spec(s: String) -> Self {
        AppError::Other(s)
    }
}

/// Errors of the service lifecycle operations, exactly the conditions that
/// the lifecycle protocol distinguishes.
#[derive(Clone, Copy, Debug, PartialEq, Eq, Structural)]
pub enum LifecycleError {
    /// A start was requested for a service that the registry already holds.
    AlreadyRunning,
    /// A stop was requested for a service that the registry does not hold.
    NotRunning,
    /// The repository root or the project directory is missing or empty.
    InvalidEnvironment,
    /// The build tool exited with a failure.
    BuildFailed,
    /// The run process could not be spawned.
    SpawnFailed,
    /// Mutual-exclusion acquisition failed; treated as fatal by the caller.
    LockError,
    /// The service name is not one of the known services.
    UnknownService,
}

/// The message that `LifecycleError::message` renders for each variant.
pub open spec fn lifecycle_error_message(e: LifecycleError) -> Seq<char> {
    match e {
        LifecycleError::AlreadyRunning => "service is already running"@,
        LifecycleError::NotRunning => "service is not running"@,
        LifecycleError::InvalidEnvironment => "repository root or project directory does not exist"@,
        LifecycleError::BuildFailed => "build failed"@,
        LifecycleError::SpawnFailed => "failed to start the service process"@,
        LifecycleError::LockError => "lock error"@,
        LifecycleError::UnknownService => "unknown service"@,
    }
}

impl LifecycleError {
    /// Human-readable message for the error.
    pub fn message(&self) -> (r: String)
        ensures
            r@ == lifecycle_error_message(*self),
    {
        match self {
            LifecycleError::AlreadyRunning => "service is already running".to_owned(),
            LifecycleError::NotRunning => "service is not running".to_owned(),
            LifecycleError::InvalidEnvironment => "repository root or project directory does not exist".to_owned(),
            LifecycleError::BuildFailed => "build failed".to_owned(),
            LifecycleError::SpawnFailed => "failed to start the service process".to_owned(),
            LifecycleError::LockError => "lock error".to_owned(),
            LifecycleError::UnknownService => "unknown service".to_owned(),
        }
    }
}

/// The view of an optional string.
pub open spec fn view_opt_string(o: Option<String>) -> Option<Seq<char>> {
    match o {
        Some(s) => Some(s@),
        None => None,
    }
}

/// Public status of one service, as reported to the console.
#[derive(Debug)]
pub struct ServiceStatus {
    pub name: String,
    pub running: bool,
    pub port: Option<u16>,
    pub url: Option<String>,
}

/// Mathematical model of a `ServiceStatus`.
pub ghost struct ServiceStatusModel {
    pub name: Seq<char>,
    pub running: bool,
    pub port: Option<u16>,
    pub url: Option<Seq<char>>,
}

impl View for ServiceStatus {
    type V = ServiceStatusModel;

    open spec fn view(&self) -> ServiceStatusModel {
        ServiceStatusModel {
            name: self.name@,
            running: self.running,
            port: self.port,
            url: view_opt_string(self.url),
        }
    }
}

/// Runtime record of one running service: what the registry stores between
/// a successful spawn and the stop or exit of the process.
#[derive(Debug)]
pub struct ServiceInfo {
    pub name: String,
    pub port: u16,
    pub url: Option<String>,
    /// Process identifier captured at spawn time, used for killing.
    pub pid: Option<u32>,
}

/// Mathematical model of a `ServiceInfo`.
pub ghost struct ServiceRecordModel {
    pub name: Seq<char>,
    pub port: u16,
    pub url: Option<Seq<char>>,
    pub pid: Option<u32>,
}

impl View for ServiceInfo {
    type V = ServiceRecordModel;

    open spec fn view(&self) -> ServiceRecordModel {
        ServiceRecordModel {
            name: self.name@,
            port: self.port,
            url: view_opt_string(self.url),
            pid: self.pid,
        }
    }
}

impl ServiceInfo {
    /// A copy of the record, equal to it in the model.
    pub fn duplicate(&self) -> (r: ServiceInfo)
        ensures
            r@ == self@,
    {
        ServiceInfo {
            name: self.name.clone(),
            port: self.port,
            url: match &self.url {
                Some(u) => Some(u.clone()),
                None => None,
            },
            pid: self.pid,
        }
    }
}

/// Connection strings discovered for one environment, all optional because
/// each lookup is best-effort.
pub struct EnvironmentConnectionStrings {
    pub cosmos_connection: Option<String>,
    pub storage_connection: Option<String>,
    pub resource_group: Option<String>,
    pub storage_account: Option<String>,
    pub error: Option<String>,
}

} // verus!
