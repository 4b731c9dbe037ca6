//! The process lifecycle protocol: the decisions behind starting, stopping
//! and prebuilding services, verified against the registry model.
//!
//! The shell performs the slow outside steps (build, spawn, kill, sleep) and
//! feeds their outcomes back into these functions; every state transition of
//! the registry and every error decision is made here. A service is
//! "running" exactly while the registry holds its name.

use vstd::prelude::*;

use crate::registry::ServiceRegistry;
use crate::strutil::str_eq;
use crate::types::{
    view_opt_string, LifecycleError, ServiceInfo, ServiceRecordModel, ServiceStatus,
    ServiceStatusModel,
};

verus! {

use vstd::string::StringExecFns;

/// Fixed port of the `api` service.
pub const API_PORT: u16 = 7096;

/// Fixed port of the `admin-api` service.
pub const ADMIN_API_PORT: u16 = 7097;

/// Fixed port of the `pwa` service.
pub const PWA_PORT: u16 = 7000;

/// Bound on the number of liveness polls after a kill.
pub const KILL_POLL_BUDGET: u32 = 50;

/// Sleep between two liveness polls, in milliseconds.
pub const KILL_POLL_INTERVAL_MS: u64 = 100;

/// The compiled-in service names.
pub open spec fn is_known_service(name: Seq<char>) -> bool {
    name == "api"@ || name == "admin-api"@ || name == "pwa"@
}

/// How a service process is killed: by its captured process identifier when
/// one was recorded at spawn time, otherwise by whoever owns its fixed port.
#[derive(Clone, Copy, Debug, PartialEq, Eq, Structural)]
pub enum KillAction {
    /// Send a forceful terminate signal to this process identifier.
    ByPid(u32),
    /// Terminate whatever process currently owns this port.
    ByPort(u16),
}

/// The kill action that a runtime record calls for.
pub open spec fn kill_action_of(rec: ServiceRecordModel) -> KillAction {
    match rec.pid {
        Some(p) => KillAction::ByPid(p),
        None => KillAction::ByPort(rec.port),
    }
}

/// Picks the kill action for one runtime record.
pub fn kill_action_for(info: &ServiceInfo) -> (r: KillAction)
    ensures
        r == kill_action_of(info@),
{
    match info.pid {
        Some(p) => KillAction::ByPid(p),
        None => KillAction::ByPort(info.port),
    }
}

/// Whether a kill poll loop goes another round: only while the process is
/// still listed and the bounded budget is not exhausted. The caller may
/// proceed once this is false, even if the process never vanished.
pub fn kill_poll_continue(attempt: u32, still_listed: bool) -> (r: bool)
    ensures
        r == (still_listed && attempt < KILL_POLL_BUDGET),
{
    still_listed && attempt < KILL_POLL_BUDGET
}

/// Everything the shell needs to build and run one service: the project
/// directory, the fixed port and the display URL.
#[derive(Debug)]
pub struct ServicePaths {
    pub project_path: String,
    pub port: u16,
    pub url: Option<String>,
}

/// Project directory, port and URL for a known service name.
pub fn get_service_paths(service_name: &str, repo_root: &str) -> (r: Result<
    ServicePaths,
    LifecycleError,
>)
    ensures
        r is Ok <==> is_known_service(service_name@),
        r matches Ok(p) ==> p.port == service_port_of(service_name@) && p.project_path@
            == repo_root@ + service_project_of(service_name@) && view_opt_string(p.url)
            == Some(service_url_of(service_name@)),
        r is Err ==> r == Err::<ServicePaths, LifecycleError>(LifecycleError::UnknownService),
{
    if str_eq(service_name, "api") {
        let mut p = repo_root.to_owned();
        p.append("/src/Mystira.App.Api");
        Ok(ServicePaths { project_path: p, port: API_PORT, url: Some(
            "https://localhost:7096/swagger".to_owned(),
        ) })
    } else if str_eq(service_name, "admin-api") {
        let mut p = repo_root.to_owned();
        p.append("/src/Mystira.App.Admin.Api");
        Ok(ServicePaths { project_path: p, port: ADMIN_API_PORT, url: Some(
            "https://localhost:7097/swagger".to_owned(),
        ) })
    } else if str_eq(service_name, "pwa") {
        let mut p = repo_root.to_owned();
        p.append("/src/Mystira.App.PWA");
        Ok(ServicePaths { project_path: p, port: PWA_PORT, url: Some(
            "http://localhost:7000".to_owned(),
        ) })
    } else {
        Err(LifecycleError::UnknownService)
    }
}

/// Fixed port of a known service.
pub open spec fn service_port_of(name: Seq<char>) -> u16 {
    if name == "api"@ {
        API_PORT
    } else if name == "admin-api"@ {
        ADMIN_API_PORT
    } else {
        PWA_PORT
    }
}

/// Project directory of a known service, relative to the repository root.
pub open spec fn service_project_of(name: Seq<char>) -> Seq<char> {
    if name == "api"@ {
        "/src/Mystira.App.Api"@
    } else if name == "admin-api"@ {
        "/src/Mystira.App.Admin.Api"@
    } else {
        "/src/Mystira.App.PWA"@
    }
}

/// Display and health URL of a known service.
pub open spec fn service_url_of(name: Seq<char>) -> Seq<char> {
    if name == "api"@ {
        "https://localhost:7096/swagger"@
    } else if name == "admin-api"@ {
        "https://localhost:7097/swagger"@
    } else {
        "http://localhost:7000"@
    }
}

/// A start is permitted exactly while the registry does not hold the name.
pub open spec fn start_permitted(
    reg: Map<Seq<char>, ServiceRecordModel>,
    name: Seq<char>,
) -> bool {
    !reg.contains_key(name)
}

/// The checks that precede the build step of `start` and of `prebuild`:
/// rejects a name the registry already holds, an empty or missing
/// repository root, an unknown service, and a missing project directory,
/// in that order. The two existence flags are what the shell observed on
/// the file system.
pub fn start_precheck(
    reg: &ServiceRegistry,
    service_name: &str,
    repo_root: &str,
    repo_root_exists: bool,
    project_dir_exists: bool,
) -> (r: Result<ServicePaths, LifecycleError>)
    requires
        reg.wf(),
    ensures
        r is Ok <==> start_permitted(reg@, service_name@) && repo_root@.len() > 0
            && repo_root_exists && is_known_service(service_name@) && project_dir_exists,
        r matches Ok(p) ==> p.port == service_port_of(service_name@) && p.project_path@
            == repo_root@ + service_project_of(service_name@) && view_opt_string(p.url)
            == Some(service_url_of(service_name@)),
        !start_permitted(reg@, service_name@) ==> r == Err::<ServicePaths, LifecycleError>(
            LifecycleError::AlreadyRunning,
        ),
        start_permitted(reg@, service_name@) && !(repo_root@.len() > 0 && repo_root_exists)
            ==> r == Err::<ServicePaths, LifecycleError>(LifecycleError::InvalidEnvironment),
        start_permitted(reg@, service_name@) && repo_root@.len() > 0 && repo_root_exists
            && !is_known_service(service_name@) ==> r == Err::<ServicePaths, LifecycleError>(
            LifecycleError::UnknownService,
        ),
        start_permitted(reg@, service_name@) && repo_root@.len() > 0 && repo_root_exists
            && is_known_service(service_name@) && !project_dir_exists ==> r == Err::<
            ServicePaths,
            LifecycleError,
        >(LifecycleError::InvalidEnvironment),
{
    if reg.contains(service_name) {
        return Err(LifecycleError::AlreadyRunning);
    }
    if repo_root.is_empty() || !repo_root_exists {
        return Err(LifecycleError::InvalidEnvironment);
    }
    let paths = get_service_paths(service_name, repo_root)?;
    if !project_dir_exists {
        return Err(LifecycleError::InvalidEnvironment);
    }
    Ok(paths)
}

/// Outcome of the shared build step: the operation goes on only when the
/// build tool exited successfully.
pub fn build_outcome(build_exit_success: bool) -> (r: Result<(), LifecycleError>)
    ensures
        r is Ok <==> build_exit_success,
        r is Err ==> r == Err::<(), LifecycleError>(LifecycleError::BuildFailed),
{
    if build_exit_success {
        Ok(())
    } else {
        Err(LifecycleError::BuildFailed)
    }
}

/// Records a successfully spawned service in the registry, atomically with
/// the presence re-check, and reports its public status. Fails without any
/// change when the name is already present.
pub fn complete_start(
    reg: &mut ServiceRegistry,
    name: &String,
    port: u16,
    url: &Option<String>,
    pid: Option<u32>,
) -> (r: Result<ServiceStatus, LifecycleError>)
    requires
        old(reg).wf(),
    ensures
        final(reg).wf(),
        r is Ok <==> start_permitted(old(reg)@, name@),
        r matches Ok(st) ==> {
            &&& final(reg)@ == old(reg)@.insert(
                name@,
                ServiceRecordModel {
                    name: name@,
                    port,
                    url: view_opt_string(*url),
                    pid,
                },
            )
            &&& st@ == (ServiceStatusModel {
                name: name@,
                running: true,
                port: Some(port),
                url: view_opt_string(*url),
            })
        },
        r is Err ==> r == Err::<ServiceStatus, LifecycleError>(LifecycleError::AlreadyRunning)
            && final(reg)@ == old(reg)@,
{
    let url_for_record = match url {
        Some(u) => Some(u.clone()),
        None => None,
    };
    proof {
        assert(view_opt_string(url_for_record) == view_opt_string(*url));
    }
    let info = ServiceInfo { name: name.clone(), port, url: url_for_record, pid };
    proof {
        assert(info@ == (ServiceRecordModel {
            name: name@,
            port,
            url: view_opt_string(*url),
            pid,
        }));
    }
    match reg.insert(info) {
        Ok(()) => {
            let url_for_status = match url {
                Some(u) => Some(u.clone()),
                None => None,
            };
            Ok(ServiceStatus { name: name.clone(), running: true, port: Some(port), url:
                url_for_status })
        },
        Err(e) => Err(e),
    }
}

/// Removes the service from the registry unconditionally, before any kill is
/// attempted: the returned record and kill action are what the shell then
/// uses for the best-effort kill, whose failure changes nothing here.
pub fn stop_service(reg: &mut ServiceRegistry, service_name: &str) -> (r: Result<
    (ServiceInfo, KillAction),
    LifecycleError,
>)
    requires
        old(reg).wf(),
    ensures
        final(reg).wf(),
        r is Ok <==> old(reg)@.contains_key(service_name@),
        r matches Ok(t) ==> {
            &&& final(reg)@ == old(reg)@.remove(service_name@)
            &&& t.0@ == old(reg)@[service_name@]
            &&& t.1 == kill_action_of(old(reg)@[service_name@])
        },
        r is Err ==> r == Err::<(ServiceInfo, KillAction), LifecycleError>(
            LifecycleError::NotRunning,
        ) && final(reg)@ == old(reg)@,
{
    match reg.remove(service_name) {
        Some(info) => {
            let action = kill_action_for(&info);
            Ok((info, action))
        },
        None => Err(LifecycleError::NotRunning),
    }
}

/// Empties the registry before a rebuild and hands back every removed
/// record paired with its kill action: built artifacts are shared, so every
/// running service must be stopped before any build. The services are not
/// restarted afterwards; that is the caller's choice.
pub fn prebuild_stop_all(reg: &mut ServiceRegistry) -> (r: Vec<(ServiceInfo, KillAction)>)
    requires
        old(reg).wf(),
    ensures
        final(reg).wf(),
        final(reg)@ == Map::<Seq<char>, ServiceRecordModel>::empty(),
        forall|i: int|
            0 <= i < r@.len() ==> {
                &&& old(reg)@.contains_key(#[trigger] r@[i].0@.name)
                &&& old(reg)@[r@[i].0@.name] == r@[i].0@
                &&& r@[i].1 == kill_action_of(r@[i].0@)
            },
        forall|k: Seq<char>|
            #[trigger] old(reg)@.contains_key(k) ==> exists|i: int|
                0 <= i < r@.len() && r@[i].0@.name == k,
{
    let records = reg.remove_all();
    let mut out: Vec<(ServiceInfo, KillAction)> = Vec::new();
    let mut i: usize = 0;
    while i < records.len()
        invariant
            i <= records@.len(),
            out@.len() == i,
            forall|j: int|
                0 <= j < i ==> #[trigger] out@[j].0@ == records@[j]@ && out@[j].1
                    == kill_action_of(records@[j]@),
        decreases records@.len() - i,
    {
        let info = records[i].duplicate();
        let action = kill_action_for(&info);
        out.push((info, action));
        i += 1;
    }
    proof {
        assert forall|k: Seq<char>| #[trigger] old(reg)@.contains_key(k) implies exists|i: int|
            0 <= i < out@.len() && out@[i].0@.name == k by {
            let j = choose|j: int| 0 <= j < records@.len() && records@[j]@.name == k;
            assert(out@[j].0@.name == k);
        }
    }
    out
}

/// The statuses that a snapshot of records denotes, given which of the
/// captured process identifiers are still alive: a record appears exactly
/// when it captured an identifier and that identifier is alive.
pub open spec fn expected_statuses(recs: Seq<ServiceRecordModel>, alive: Seq<bool>) -> Seq<
    ServiceStatusModel,
>
    decreases recs.len(),
{
    if recs.len() == 0 {
        Seq::empty()
    } else {
        let front = expected_statuses(recs.drop_last(), alive.drop_last());
        let rec = recs.last();
        if rec.pid is Some && alive.last() {
            front.push(
                ServiceStatusModel {
                    name: rec.name,
                    running: true,
                    port: Some(rec.port),
                    url: rec.url,
                },
            )
        } else {
            front
        }
    }
}

/// Status of every live service in a registry snapshot. `alive[i]` is the
/// shell's answer to "is the identifier of `records[i]` still listed among
/// live processes"; a record without a captured identifier is not reported.
pub fn status_from_snapshot(records: &Vec<ServiceInfo>, alive: &Vec<bool>) -> (r: Vec<
    ServiceStatus,
>)
    requires
        records@.len() == alive@.len(),
    ensures
        r@.map_values(|st: ServiceStatus| st@) == expected_statuses(
            records@.map_values(|e: ServiceInfo| e@),
            alive@,
        ),
{
    let ghost recs = records@.map_values(|e: ServiceInfo| e@);
    let mut out: Vec<ServiceStatus> = Vec::new();
    let mut i: usize = 0;
    while i < records.len()
        invariant
            records@.len() == alive@.len(),
            recs == records@.map_values(|e: ServiceInfo| e@),
            i <= records@.len(),
            out@.map_values(|st: ServiceStatus| st@) == expected_statuses(
                recs.take(i as int),
                alive@.take(i as int),
            ),
        decreases records@.len() - i,
    {
        let reported = match records[i].pid {
            Some(_) => alive[i],
            None => false,
        };
        if reported {
            let rec = records[i].duplicate();
            out.push(ServiceStatus { name: rec.name, running: true, port: Some(rec.port), url:
                rec.url });
        }
        proof {
            assert(recs.take(i + 1).drop_last() =~= recs.take(i as int));
            assert(alive@.take(i + 1).drop_last() =~= alive@.take(i as int));
            assert(recs.take(i + 1).last() == recs[i as int]);
            assert(alive@.take(i + 1).last() == alive@[i as int]);
            assert(out@.map_values(|st: ServiceStatus| st@) =~= expected_statuses(
                recs.take(i + 1),
                alive@.take(i + 1),
            ));
        }
        i += 1;
    }
    proof {
        assert(recs.take(recs.len() as int) =~= recs);
        assert(alive@.take(alive@.len() as int) =~= alive@);
    }
    out
}

/// A health probe reports healthy exactly for a success status code.
pub fn health_from_status(status_code: Option<u16>) -> (r: bool)
    ensures
        r == (status_code matches Some(c) && 200 <= c && c < 300),
{
    match status_code {
        Some(c) => 200 <= c && c < 300,
        None => false,
    }
}

/// Once a start has succeeded, a second start of the same name is refused
/// until a stop intervenes: inserting a record forbids starting that name.
pub proof fn lemma_start_mutual_exclusion(
    reg: Map<Seq<char>, ServiceRecordModel>,
    name: Seq<char>,
    rec: ServiceRecordModel,
)
    ensures
        !start_permitted(reg.insert(name, rec), name),
{
}

/// Stopping removes the service from every later status report, whatever
/// the kill then does: the removed name is absent from the registry map.
pub proof fn lemma_stop_removes(reg: Map<Seq<char>, ServiceRecordModel>, name: Seq<char>)
    ensures
        !reg.remove(name).contains_key(name),
{
}

} // verus!
