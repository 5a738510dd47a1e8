//! What holds of every claim to be the one daemon of its user: whom it yields to, what it
//! takes over and what it publishes.
use crate::bootstrap::error::{
    BootstrapError, ConnectionFileError, ConnectionFileFault, IoFailure, IoKind,
};
use crate::bootstrap::singleton::{
    bind_loopback, connection_info, first_listener, ipv6_loopback_unavailable,
    is_absent_or_stale_connection_file, probe_endpoint, probe_existing, start_lock_directory,
    start_lock_path, start_lock_step, the_lock_stands_beside_its_file, ConnectionInfo, Endpoint,
    EndpointFinding, LockStep, LockTry, Probe, SingletonClaim, Stage, StageEvent,
};
use crate::daemon_config::document::config_error_text;
use crate::paths::laws::plain_dir;
use crate::paths::{a_file_stands_in_its_directory, plain_name};
use crate::text::decimal;
use vstd::prelude::*;

verus! {

/// An endpoint is live exactly where it is on the loopback, takes the connection and
/// proves who it is.
pub proof fn which_endpoint_is_live(finding: EndpointFinding, r: Probe)
    requires
        call_ensures(probe_endpoint, (finding,), r),
    ensures
        r == Probe::Live <==> finding.loopback == Some(true) && finding.connected
            && finding.authenticated,
{
}

/// A daemon runs where one of its endpoints is live; a connection file that is missing,
/// malformed or not private counts as none, and any other failure to read it is a fault.
pub proof fn when_a_daemon_already_runs(
    path: &String,
    found: Result<Vec<EndpointFinding>, ConnectionFileError>,
    r: Result<Probe, BootstrapError>,
    i: int,
)
    requires
        call_ensures(probe_existing, (path, found), r),
    ensures
        found matches Ok(findings) ==> r is Ok && (0 <= i < findings@.len()
            && findings@[i].loopback == Some(true) && findings@[i].connected
            && findings@[i].authenticated ==> r->Ok_0 == Probe::Live) && ((forall|k: int|
            0 <= k < findings@.len() ==> !((#[trigger] findings@[k]).loopback == Some(true)
                && findings@[k].connected && findings@[k].authenticated)) ==> r->Ok_0
            == Probe::StaleOrAbsent),
        found matches Err(source) ==> {
            let none = source.fault is NotFound || source.fault is JsonRead
                || source.fault is UnsupportedSchema || source.fault is Invalid
                || source.fault is KeyTooShort || source.fault is InsecurePermissions;
            &&& none ==> r == Ok::<_, BootstrapError>(Probe::StaleOrAbsent)
            &&& !none ==> (r matches Err(BootstrapError::ConnectionFileRead {
                path: at,
                source: why,
            }) && at == *path && why == source)
        },
{
    if found is Ok {
        let findings = found->Ok_0@;
        if 0 <= i < findings.len() && findings[i].loopback == Some(true) && findings[i].connected
            && findings[i].authenticated {
            assert(crate::bootstrap::singleton::live_at(findings[i]));
        }
    }
}

/// Which faults of a connection file mean that there is none to respect.
pub proof fn which_connection_file_counts_as_none(fault: ConnectionFileFault, r: bool)
    requires
        call_ensures(is_absent_or_stale_connection_file, (fault,), r),
    ensures
        r <==> fault is NotFound || fault is JsonRead || fault is UnsupportedSchema
            || fault is Invalid || fault is KeyTooShort || fault is InsecurePermissions,
{
}

/// A claim goes step by step: it looks, locks, looks again, removes what is stale, takes
/// its identity, binds and publishes, and at each step goes on or ends as that step says.
pub proof fn how_a_claim_goes_on(claim: SingletonClaim, event: StageEvent, r: SingletonClaim)
    requires
        call_ensures(SingletonClaim::advance, (claim, event), r),
    ensures
        r.path == claim.path,
        claim.stage is Probing ==> {
            &&& event matches StageEvent::Probed(Ok(Probe::Live)) ==> r.stage is AlreadyRunning
            &&& event matches StageEvent::Probed(Ok(Probe::StaleOrAbsent)) ==> r.stage is Locking
            &&& event matches StageEvent::Probed(Err(e)) ==> r.stage == Stage::Failed(e)
        },
        claim.stage is Locking ==> {
            &&& event matches StageEvent::Locked(Ok(_)) ==> r.stage is Reprobing
            &&& event matches StageEvent::Locked(Err(e)) ==> r.stage == Stage::Failed(e)
        },
        claim.stage is Reprobing ==> {
            &&& event matches StageEvent::Probed(Ok(Probe::Live)) ==> r.stage is AlreadyRunning
            &&& event matches StageEvent::Probed(Ok(Probe::StaleOrAbsent)) ==> r.stage is Removing
            &&& event matches StageEvent::Probed(Err(e)) ==> r.stage == Stage::Failed(e)
        },
        claim.stage is Removing ==> {
            &&& event matches StageEvent::Removed(Ok(_)) ==> r.stage is Identifying
            &&& event matches StageEvent::Removed(Err(source)) ==> (source.kind == IoKind::NotFound
                ==> r.stage is Identifying) && (source.kind != IoKind::NotFound ==> r.stage
                == Stage::Failed(BootstrapError::RemoveStale { path: claim.path, source }))
        },
        claim.stage is Identifying ==> {
            &&& event matches StageEvent::Identified(Ok(_)) ==> r.stage is Binding
            &&& event matches StageEvent::Identified(Err(text)) ==> r.stage == Stage::Failed(
                BootstrapError::MachineId(text),
            )
        },
        claim.stage is Binding ==> {
            &&& event matches StageEvent::Listening(Ok(_)) ==> r.stage is Publishing
            &&& event matches StageEvent::Listening(Err(e)) ==> r.stage == Stage::Failed(e)
        },
        claim.stage is Publishing ==> {
            &&& event matches StageEvent::Published(Ok(_)) ==> r.stage is Bound
            &&& event matches StageEvent::Published(Err(source)) ==> r.stage == Stage::Failed(
                BootstrapError::ConnectionFileWrite { path: claim.path, source },
            )
        },
        claim.stage is AlreadyRunning || claim.stage is Bound || claim.stage is Failed ==> r.stage
            == claim.stage,
        (claim.stage is Probing || claim.stage is Reprobing) && !(event is Probed) ==> r.stage
            == claim.stage,
        claim.stage is Locking && !(event is Locked) ==> r.stage == claim.stage,
        claim.stage is Removing && !(event is Removed) ==> r.stage == claim.stage,
        claim.stage is Identifying && !(event is Identified) ==> r.stage == claim.stage,
        claim.stage is Binding && !(event is Listening) ==> r.stage == claim.stage,
        claim.stage is Publishing && !(event is Published) ==> r.stage == claim.stage,
{
}

/// A claim starts by looking.
pub proof fn a_claim_starts_by_looking(path: String, r: SingletonClaim)
    requires
        call_ensures(SingletonClaim::new, (path,), r),
    ensures
        r.stage is Probing,
        r.path == path,
{
}

/// A lock that is held by another is tried forty times, a fortieth of a second apart, and
/// then given up; any other failure ends the start at once.
pub proof fn how_long_a_lock_is_tried(path: &String, tries: usize, outcome: LockTry, r: LockStep)
    requires
        call_ensures(start_lock_step, (path, tries, outcome), r),
    ensures
        outcome is Locked ==> r is Held,
        outcome is WouldBlock && tries < 40 ==> r == LockStep::Again(25),
        outcome is WouldBlock && tries >= 40 ==> (
        r matches LockStep::Failed(BootstrapError::StartLockBusy { path: at, attempts }) && at
            == *path && attempts == 40),
        outcome matches LockTry::Failed(source) ==> (
        r matches LockStep::Failed(BootstrapError::StartLockCreate { path: at, source: why }) && at
            == *path && why == source),
{
}

/// A second loopback that the system does not have is done without; the codes of three
/// systems say so.
pub proof fn when_the_second_loopback_is_done_without(e: &IoFailure, r: bool)
    requires
        call_ensures(ipv6_loopback_unavailable, (e,), r),
    ensures
        r <==> e.kind == IoKind::AddrNotAvailable || e.kind == IoKind::Unsupported || e.raw_os_error
            == Some(47i32) || e.raw_os_error == Some(49i32) || e.raw_os_error == Some(97i32),
{
}

/// The first listener has the port that was asked for or the one that the system gave; a
/// failure names the loopback, and the port that was asked for.
pub proof fn what_the_first_listener_has(
    port: u16,
    bound: Result<(), IoFailure>,
    local: Result<u16, IoFailure>,
    r: Result<u16, BootstrapError>,
)
    requires
        call_ensures(first_listener, (port, bound, local), r),
    ensures
        bound matches Err(source) ==> (r matches Err(BootstrapError::Bind {
            host,
            port: at,
            source: why,
        }) && host@ == "127.0.0.1"@ && at == port && why == source),
        bound is Ok ==> (local matches Err(source) ==> (
        r matches Err(BootstrapError::LocalAddr { host, source: why }) && host@ == "127.0.0.1"@
            && why == source)),
        bound is Ok ==> (local matches Ok(actual) ==> r == Ok::<u16, BootstrapError>(actual)),
{
}

/// The daemon listens on the first loopback and, where the system has it, on the second,
/// on one port.
pub proof fn where_a_daemon_listens(
    actual: u16,
    second: Result<(), IoFailure>,
    r: Result<Vec<Endpoint>, BootstrapError>,
)
    requires
        call_ensures(bind_loopback, (actual, second), r),
    ensures
        second is Ok ==> r is Ok && r->Ok_0@.len() == 2 && r->Ok_0@[0].host@ == "127.0.0.1"@
            && r->Ok_0@[0].port == actual && r->Ok_0@[1].host@ == "::1"@ && r->Ok_0@[1].port
            == actual,
        second matches Err(source) ==> {
            let without = source.kind == IoKind::AddrNotAvailable || source.kind
                == IoKind::Unsupported || source.raw_os_error == Some(47i32)
                || source.raw_os_error == Some(49i32) || source.raw_os_error == Some(97i32);
            &&& without ==> r is Ok && r->Ok_0@.len() == 1 && r->Ok_0@[0].host@ == "127.0.0.1"@
                && r->Ok_0@[0].port == actual
            &&& !without ==> (r matches Err(BootstrapError::Bind { host, port, source: why })
                && host@ == "::1"@ && port == actual && why == source)
        },
{
}

/// What is published is what the daemon has, in the wire version that it speaks.
pub proof fn what_a_daemon_publishes(
    schema: u32,
    endpoints: Vec<Endpoint>,
    key: Vec<u8>,
    daemon_id: [u8; 16],
    pid: u32,
    daemon_ver: String,
    r: ConnectionInfo,
)
    requires
        call_ensures(
            connection_info,
            (schema, endpoints, key, daemon_id, pid, daemon_ver),
            r,
        ),
    ensures
        r.schema == schema,
        r.wire_version == Some(2u8),
        r.endpoints == endpoints,
        r.key == key,
        r.daemon_id == daemon_id,
        r.pid == pid,
        r.daemon_ver == daemon_ver,
{
}

/// Each error of a start says what failed, and where.
pub proof fn what_an_error_of_the_start_says(error: &BootstrapError, r: String)
    requires
        call_ensures(BootstrapError::to_text, (error,), r),
    ensures
        *error matches BootstrapError::Signal(text) ==> r@ == "failed to register SIGTERM handler: "@
            + text@,
        *error matches BootstrapError::InvalidPort { raw, source } ==> r@
            == "invalid SUBC_PORT value '"@ + raw@ + "': "@ + source@,
        *error matches BootstrapError::ConnectionFileRead { path, source } ==> r@
            == "failed to read connection file "@ + path@ + ": "@ + source.text@,
        *error matches BootstrapError::ConnectionFileWrite { path, source } ==> r@
            == "failed to publish connection file "@ + path@ + ": "@ + source.text@,
        *error matches BootstrapError::GenerateConnectionFile(source) ==> r@
            == "failed to generate connection-file auth material: "@ + source.text@,
        *error matches BootstrapError::StartLockCreate { path, source } ==> r@
            == "failed to create start lock "@ + path@ + ": "@ + source.text@,
        *error matches BootstrapError::StartLockBusy { path, attempts } ==> r@ == "start lock "@
            + path@ + " remained busy after "@ + decimal(attempts as nat) + " attempts"@,
        *error matches BootstrapError::RemoveStale { path, source } ==> r@
            == "failed to remove stale connection file "@ + path@ + ": "@ + source.text@,
        *error matches BootstrapError::Bind { host, port, source } ==> (source.kind
            == IoKind::AddrInUse ==> r@ == "port "@ + decimal(port as nat)
            + " in use on loopback "@ + host@ + ": "@ + source.text@ + "; set the port in config"@)
            && (source.kind != IoKind::AddrInUse ==> r@ == "failed to bind loopback TCP "@ + host@
            + ":"@ + decimal(port as nat) + ": "@ + source.text@),
        *error matches BootstrapError::LocalAddr { host, source } ==> r@
            == "failed to read local address for "@ + host@ + ": "@ + source.text@,
        *error matches BootstrapError::DaemonConfig(e) ==> r@ == "failed to load daemon config: "@
            + config_error_text(e@),
        *error matches BootstrapError::MachineId(text) ==> r@ == "refusing to start: "@ + text@,
        *error matches BootstrapError::RunDir(e) ==> r@ == "refusing to start: "@ + (
        "daemon run directory resolved to the relative path "@ + e.path@
            + " (no absolute XDG_DATA_HOME or HOME in the daemon's environment)"@),
        *error matches BootstrapError::Serve(text) ==> r@ == "daemon server failed: "@ + text@,
        *error matches BootstrapError::ServeJoin(text) ==> r@ == "daemon server task failed: "@
            + text@,
{
}

/// On Unix the start lock stands beside the connection file, under its name and
/// `.start-lock`, in the directory that is made for it.
pub proof fn where_the_start_lock_stands(
    path: &str,
    dir: Seq<char>,
    name: Seq<char>,
    lock: String,
    made: Option<String>,
)
    requires
        call_ensures(start_lock_path, (false, path), lock),
        call_ensures(start_lock_directory, (false, path), made),
        path@ == dir + "/"@ + name,
        plain_name(name),
        plain_dir(dir),
        dir.last() != '.',
    ensures
        lock@ == dir + "/"@ + name + ".start-lock"@,
        made is Some && made->0@ == dir,
{
    the_lock_stands_beside_its_file(dir, name);
    a_file_stands_in_its_directory(dir, name);
}

} // verus!
