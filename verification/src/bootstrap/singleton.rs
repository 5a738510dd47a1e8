//! One daemon for each user: finding one that runs, or becoming it.
use crate::bootstrap::error::{
    BootstrapError, ConnectionFileError, ConnectionFileFault, IoFailure, IoKind,
};
use crate::bootstrap::CONNECTION_FILE_NAME;
use crate::control::wire::PROTOCOL_VERSION;
use crate::paths::{
    a_file_stands_in_its_directory, before_last_name, file_name, join_name, joined_name, last_name,
    parent, plain_name,
};
use crate::text::text_option;
use vstd::prelude::*;

verus! {

/// Whether a daemon runs.
#[derive(Clone, Copy, Debug, PartialEq, Eq, Structural)]
pub enum Probe {
    Live,
    StaleOrAbsent,
}

/// The file tells of no daemon that is to be deferred to: it is missing, or a
/// running daemon would never have written it. A file of another wire version may
/// be that of a newer daemon, and a directory that others can write to says nothing
/// of whether a daemon runs.
pub open spec fn absent_or_stale(fault: ConnectionFileFault) -> bool {
    match fault {
        ConnectionFileFault::NotFound
        | ConnectionFileFault::JsonRead
        | ConnectionFileFault::UnsupportedSchema
        | ConnectionFileFault::Invalid
        | ConnectionFileFault::KeyTooShort
        | ConnectionFileFault::InsecurePermissions => true,
        ConnectionFileFault::Io
        | ConnectionFileFault::MissingParent
        | ConnectionFileFault::MissingFileName
        | ConnectionFileFault::InsecureParentDirectory
        | ConnectionFileFault::JsonWrite
        | ConnectionFileFault::Random
        | ConnectionFileFault::WireVersionMismatch => false,
    }
}

/// Whether the file tells of no daemon that is to be deferred to.
pub fn is_absent_or_stale_connection_file(fault: ConnectionFileFault) -> (r: bool)
    ensures
        r == absent_or_stale(fault),
{
    match fault {
        ConnectionFileFault::NotFound
        | ConnectionFileFault::JsonRead
        | ConnectionFileFault::UnsupportedSchema
        | ConnectionFileFault::Invalid
        | ConnectionFileFault::KeyTooShort
        | ConnectionFileFault::InsecurePermissions => true,
        _ => false,
    }
}

/// What was found at an address of the file.
#[derive(Clone, Copy, Debug, PartialEq, Eq, Structural)]
pub struct EndpointFinding {
    /// Whether the address is one of this machine alone, where it is an address.
    pub loopback: Option<bool>,
    pub connected: bool,
    /// The peer proved that it holds the file's key and is its daemon.
    pub authenticated: bool,
}

/// Whether a daemon runs at an address: an open port alone does not say so.
pub open spec fn live_at(finding: EndpointFinding) -> bool {
    finding.loopback == Some(true) && finding.connected && finding.authenticated
}

/// Whether a daemon runs at an address.
pub fn probe_endpoint(finding: EndpointFinding) -> (r: Probe)
    ensures
        r == if live_at(finding) {
            Probe::Live
        } else {
            Probe::StaleOrAbsent
        },
{
    match finding.loopback {
        Some(loopback) => if loopback && finding.connected && finding.authenticated {
            Probe::Live
        } else {
            Probe::StaleOrAbsent
        },
        None => Probe::StaleOrAbsent,
    }
}

/// Whether a daemon runs at one of the addresses.
pub open spec fn some_live(findings: Seq<EndpointFinding>) -> bool {
    exists|i: int| 0 <= i < findings.len() && live_at(#[trigger] findings[i])
}

/// Whether a daemon runs, from what was found at the addresses of the file or from
/// why it could not be read.
pub fn probe_existing(path: &String, found: Result<Vec<EndpointFinding>, ConnectionFileError>) -> (r:
    Result<Probe, BootstrapError>)
    ensures
        match found {
            Ok(findings) => r == Ok::<_, BootstrapError>(
                if some_live(findings@) {
                    Probe::Live
                } else {
                    Probe::StaleOrAbsent
                },
            ),
            Err(source) => if absent_or_stale(source.fault) {
                r == Ok::<_, BootstrapError>(Probe::StaleOrAbsent)
            } else {
                r == Err::<Probe, _>(BootstrapError::ConnectionFileRead { path: *path, source })
            },
        },
{
    match found {
        Err(source) => if is_absent_or_stale_connection_file(source.fault) {
            Ok(Probe::StaleOrAbsent)
        } else {
            Err(BootstrapError::ConnectionFileRead { path: path.clone(), source })
        },
        Ok(findings) => {
            let mut i: usize = 0;
            while i < findings.len()
                invariant
                    i <= findings.len(),
                    found == Ok::<_, ConnectionFileError>(findings),
                    forall|j: int| 0 <= j < i ==> !live_at(#[trigger] findings@[j]),
                decreases findings.len() - i,
            {
                match probe_endpoint(findings[i]) {
                    Probe::Live => {
                        proof {
                            assert(live_at(findings@[i as int]));
                        }
                        return Ok(Probe::Live);
                    },
                    Probe::StaleOrAbsent => {},
                }
                i += 1;
            }
            Ok(Probe::StaleOrAbsent)
        },
    }
}

/// How far a daemon has come in claiming its place.
#[derive(Debug)]
pub enum Stage {
    /// Does one run?
    Probing,
    /// The start lock is wanted.
    Locking,
    /// The lock is held. Does one run by now?
    Reprobing,
    /// The stale file goes.
    Removing,
    /// The machine's id is read or made.
    Identifying,
    /// The listeners are bound.
    Binding,
    /// The connection file is written.
    Publishing,
    /// Another daemon runs, and this one ends.
    AlreadyRunning,
    /// The place is claimed.
    Bound,
    Failed(BootstrapError),
}

/// What became of the step that a stage asks for.
#[derive(Debug)]
pub enum StageEvent {
    Probed(Result<Probe, BootstrapError>),
    Locked(Result<(), BootstrapError>),
    Removed(Result<(), IoFailure>),
    Identified(Result<(), String>),
    Listening(Result<(), BootstrapError>),
    Published(Result<(), ConnectionFileError>),
}

/// The stage after an event. One that the stage does not wait for changes nothing.
pub open spec fn after_event(stage: Stage, event: StageEvent, path: String) -> Stage {
    match (stage, event) {
        (Stage::Probing, StageEvent::Probed(found)) => match found {
            Ok(Probe::Live) => Stage::AlreadyRunning,
            Ok(Probe::StaleOrAbsent) => Stage::Locking,
            Err(e) => Stage::Failed(e),
        },
        (Stage::Locking, StageEvent::Locked(locked)) => match locked {
            Ok(()) => Stage::Reprobing,
            Err(e) => Stage::Failed(e),
        },
        (Stage::Reprobing, StageEvent::Probed(found)) => match found {
            Ok(Probe::Live) => Stage::AlreadyRunning,
            Ok(Probe::StaleOrAbsent) => Stage::Removing,
            Err(e) => Stage::Failed(e),
        },
        (Stage::Removing, StageEvent::Removed(removed)) => match removed {
            Ok(()) => Stage::Identifying,
            Err(source) => if source.kind == IoKind::NotFound {
                Stage::Identifying
            } else {
                Stage::Failed(BootstrapError::RemoveStale { path, source })
            },
        },
        (Stage::Identifying, StageEvent::Identified(identified)) => match identified {
            Ok(()) => Stage::Binding,
            Err(text) => Stage::Failed(BootstrapError::MachineId(text)),
        },
        (Stage::Binding, StageEvent::Listening(listening)) => match listening {
            Ok(()) => Stage::Publishing,
            Err(e) => Stage::Failed(e),
        },
        (Stage::Publishing, StageEvent::Published(published)) => match published {
            Ok(()) => Stage::Bound,
            Err(source) => Stage::Failed(BootstrapError::ConnectionFileWrite { path, source }),
        },
        (stage, _) => stage,
    }
}

/// The claim of a daemon to be the one of its user.
#[derive(Debug)]
pub struct SingletonClaim {
    pub path: String,
    pub stage: Stage,
}

impl SingletonClaim {
    /// A claim that begins, on the place that the connection file stands for.
    pub fn new(path: String) -> (r: SingletonClaim)
        ensures
            r.path == path,
            r.stage is Probing,
    {
        SingletonClaim { path, stage: Stage::Probing }
    }

    /// Goes on after an event.
    pub fn advance(self, event: StageEvent) -> (r: SingletonClaim)
        ensures
            r.path == self.path,
            r.stage == after_event(self.stage, event, self.path),
    {
        let SingletonClaim { path, stage } = self;
        let stage: Stage = match (stage, event) {
            (Stage::Probing, StageEvent::Probed(found)) => match found {
                Ok(Probe::Live) => Stage::AlreadyRunning,
                Ok(Probe::StaleOrAbsent) => Stage::Locking,
                Err(e) => Stage::Failed(e),
            },
            (Stage::Locking, StageEvent::Locked(locked)) => match locked {
                Ok(()) => Stage::Reprobing,
                Err(e) => Stage::Failed(e),
            },
            (Stage::Reprobing, StageEvent::Probed(found)) => match found {
                Ok(Probe::Live) => Stage::AlreadyRunning,
                Ok(Probe::StaleOrAbsent) => Stage::Removing,
                Err(e) => Stage::Failed(e),
            },
            (Stage::Removing, StageEvent::Removed(removed)) => match removed {
                Ok(()) => Stage::Identifying,
                Err(source) => if source.kind == IoKind::NotFound {
                    Stage::Identifying
                } else {
                    Stage::Failed(BootstrapError::RemoveStale { path: path.clone(), source })
                },
            },
            (Stage::Identifying, StageEvent::Identified(identified)) => match identified {
                Ok(()) => Stage::Binding,
                Err(text) => Stage::Failed(BootstrapError::MachineId(text)),
            },
            (Stage::Binding, StageEvent::Listening(listening)) => match listening {
                Ok(()) => Stage::Publishing,
                Err(e) => Stage::Failed(e),
            },
            (Stage::Publishing, StageEvent::Published(published)) => match published {
                Ok(()) => Stage::Bound,
                Err(source) => Stage::Failed(
                    BootstrapError::ConnectionFileWrite { path: path.clone(), source },
                ),
            },
            (stage, _) => stage,
        };
        SingletonClaim { path, stage }
    }
}

/// The stage after some events.
pub open spec fn stage_after(events: Seq<StageEvent>, path: String) -> Stage
    decreases events.len(),
{
    if events.len() == 0 {
        Stage::Probing
    } else {
        after_event(stage_after(events.drop_last(), path), events.last(), path)
    }
}

/// The stage touches what another daemon may have left: the file is removed, the
/// listeners are bound or the file is written.
pub open spec fn takes_over(stage: Stage) -> bool {
    stage is Removing || stage is Identifying || stage is Binding || stage is Publishing
        || stage is Bound
}

/// The lock is held.
pub open spec fn holds_lock(stage: Stage) -> bool {
    stage is Reprobing || takes_over(stage)
}

/// The lock was taken at `l` and no daemon was found after that, at `p`.
pub open spec fn locked_and_looked(events: Seq<StageEvent>, l: int, p: int) -> bool {
    &&& 0 <= l < p < events.len()
    &&& locked_at(events, l)
    &&& events[p] == StageEvent::Probed(Ok(Probe::StaleOrAbsent))
}

/// The lock was taken at `l`.
pub open spec fn locked_at(events: Seq<StageEvent>, l: int) -> bool {
    0 <= l < events.len() && events[l] matches StageEvent::Locked(Ok(_))
}

/// A daemon takes nothing over before it holds the start lock and has found, with
/// the lock held, that no other daemon runs.
pub proof fn nothing_is_taken_over_unlocked(events: Seq<StageEvent>, path: String)
    ensures
        holds_lock(stage_after(events, path)) ==> exists|l: int| locked_at(events, l),
        takes_over(stage_after(events, path)) ==> exists|l: int, p: int|
            locked_and_looked(events, l, p),
    decreases events.len(),
{
    if events.len() > 0 {
        let before = events.drop_last();
        let last = events.len() - 1;
        nothing_is_taken_over_unlocked(before, path);
        let was = stage_after(before, path);
        let now = stage_after(events, path);
        if holds_lock(now) {
            if holds_lock(was) {
                let l = choose|l: int| locked_at(before, l);
                assert(locked_at(events, l));
            } else {
                assert(locked_at(events, last));
            }
        }
        if takes_over(now) {
            if takes_over(was) {
                let (l, p) = choose|l: int, p: int| locked_and_looked(before, l, p);
                assert(locked_and_looked(events, l, p));
            } else {
                assert(was is Reprobing);
                let l = choose|l: int| locked_at(before, l);
                assert(locked_and_looked(events, l, last));
            }
        }
    }
}

/// Where another daemon is found, this one ends and has taken nothing over.
pub proof fn a_running_daemon_is_left_alone(stage: Stage, path: String)
    requires
        stage is Probing || stage is Reprobing,
    ensures
        after_event(stage, StageEvent::Probed(Ok(Probe::Live)), path) is AlreadyRunning,
        !takes_over(stage),
        forall|event: StageEvent| #[trigger]
            after_event(Stage::AlreadyRunning, event, path) is AlreadyRunning,
{
}

/// How often the start lock is tried.
pub const START_LOCK_RETRIES: usize = 40;

/// Milliseconds between two tries.
pub const START_LOCK_RETRY_DELAY_MS: u64 = 25;

/// What became of a try for the start lock.
#[derive(Debug)]
pub enum LockTry {
    Locked,
    WouldBlock,
    Failed(IoFailure),
}

/// What follows from a try.
#[derive(Debug)]
pub enum LockStep {
    Held,
    /// Another try, after this many milliseconds.
    Again(u64),
    Failed(BootstrapError),
}

/// What follows from a try. `tries` is how many there have been, with this one.
pub open spec fn lock_step(path: String, tries: usize, outcome: LockTry) -> LockStep {
    match outcome {
        LockTry::Locked => LockStep::Held,
        LockTry::WouldBlock => if tries < START_LOCK_RETRIES {
            LockStep::Again(START_LOCK_RETRY_DELAY_MS)
        } else {
            LockStep::Failed(
                BootstrapError::StartLockBusy { path, attempts: START_LOCK_RETRIES },
            )
        },
        LockTry::Failed(source) => LockStep::Failed(
            BootstrapError::StartLockCreate { path, source },
        ),
    }
}

/// Decides what follows from a try for the start lock.
pub fn start_lock_step(path: &String, tries: usize, outcome: LockTry) -> (r: LockStep)
    ensures
        r == lock_step(*path, tries, outcome),
{
    match outcome {
        LockTry::Locked => LockStep::Held,
        LockTry::WouldBlock => if tries < START_LOCK_RETRIES {
            LockStep::Again(START_LOCK_RETRY_DELAY_MS)
        } else {
            LockStep::Failed(
                BootstrapError::StartLockBusy {
                    path: path.clone(),
                    attempts: START_LOCK_RETRIES,
                },
            )
        },
        LockTry::Failed(source) => LockStep::Failed(
            BootstrapError::StartLockCreate { path: path.clone(), source },
        ),
    }
}

/// The directory that has to be there before the lock is taken, where the file
/// stands in one.
pub open spec fn lock_dir(parent: Option<Seq<char>>) -> Option<Seq<char>> {
    match parent {
        Some(dir) => if dir.len() > 0 {
            Some(dir)
        } else {
            None
        },
        None => None,
    }
}

/// The lock beside a file that ends in a name and stands in a directory.
pub open spec fn lock_beside(
    windows: bool,
    name: Option<Seq<char>>,
    parent: Option<Seq<char>>,
) -> Seq<char> {
    let name = match name {
        Some(name) => name,
        None => CONNECTION_FILE_NAME@,
    };
    let dir = match lock_dir(parent) {
        Some(dir) => dir,
        None => "."@,
    };
    joined_name(windows, dir, name + ".start-lock"@)
}

/// The start lock of a connection file, beside it.
pub fn start_lock_path(windows: bool, connection_file_path: &str) -> (r: String)
    ensures
        r@ == lock_beside(
            windows,
            last_name(windows, connection_file_path@),
            before_last_name(windows, connection_file_path@),
        ),
{
    let name: String = match file_name(windows, connection_file_path) {
        Some(name) => name,
        None => String::from_str(CONNECTION_FILE_NAME),
    };
    let lock_name: String = name.concat(".start-lock");
    match start_lock_directory(windows, connection_file_path) {
        Some(dir) => join_name(windows, dir.as_str(), lock_name.as_str()),
        None => join_name(windows, ".", lock_name.as_str()),
    }
}

/// The directory that has to be there before the start lock is taken.
pub fn start_lock_directory(windows: bool, connection_file_path: &str) -> (r: Option<String>)
    ensures
        text_option(r) == lock_dir(before_last_name(windows, connection_file_path@)),
{
    match parent(windows, connection_file_path) {
        Some(dir) => if dir.as_str().is_empty() {
            None
        } else {
            Some(dir)
        },
        None => None,
    }
}

/// On Unix the lock of a file in a directory has the path of the file and an ending of
/// its own.
pub proof fn the_lock_stands_beside_its_file(dir: Seq<char>, name: Seq<char>)
    requires
        plain_name(name),
        dir.len() > 0,
        dir.last() != '/',
        dir.last() != '.',
    ensures
        lock_beside(
            false,
            last_name(false, dir + "/"@ + name),
            before_last_name(false, dir + "/"@ + name),
        ) == dir + "/"@ + name + ".start-lock"@,
{
    a_file_stands_in_its_directory(dir, name);
    assert(dir + "/"@ + (name + ".start-lock"@) =~= dir + "/"@ + name + ".start-lock"@);
}

/// An address at which the daemon listens.
#[derive(Debug)]
pub struct Endpoint {
    pub host: String,
    pub port: u16,
}

/// The loopback address of version 4.
pub const LOOPBACK_V4: &'static str = "127.0.0.1";

/// The loopback address of version 6.
pub const LOOPBACK_V6: &'static str = "::1";

/// The error says that the machine has no loopback address of version 6.
pub open spec fn no_v6_loopback(e: IoFailure) -> bool {
    e.kind == IoKind::AddrNotAvailable || e.kind == IoKind::Unsupported || e.raw_os_error == Some(
        47i32,
    ) || e.raw_os_error == Some(49i32) || e.raw_os_error == Some(97i32)
}

/// Whether the error says that the machine has no loopback address of version 6.
pub fn ipv6_loopback_unavailable(e: &IoFailure) -> (r: bool)
    ensures
        r == no_v6_loopback(*e),
{
    let by_kind: bool = match e.kind {
        IoKind::AddrNotAvailable => true,
        IoKind::Unsupported => true,
        _ => false,
    };
    let by_number: bool = match e.raw_os_error {
        Some(n) => n == 47 || n == 49 || n == 97,
        None => false,
    };
    by_kind || by_number
}

/// The port that was bound, from what became of the first listener. `local` is the
/// port that the system gave it.
pub fn first_listener(
    port: u16,
    bound: Result<(), IoFailure>,
    local: Result<u16, IoFailure>,
) -> (r: Result<u16, BootstrapError>)
    ensures
        match (bound, local) {
            (Err(source), _) => r matches Err(BootstrapError::Bind { host, port: p, source: s })
                && host@ == LOOPBACK_V4@ && p == port && s == source,
            (Ok(()), Err(source)) => r matches Err(BootstrapError::LocalAddr { host, source: s })
                && host@ == LOOPBACK_V4@ && s == source,
            (Ok(()), Ok(actual)) => r == Ok::<_, BootstrapError>(actual),
        },
{
    match bound {
        Err(source) => Err(
            BootstrapError::Bind { host: String::from_str(LOOPBACK_V4), port, source },
        ),
        Ok(()) => match local {
            Err(source) => Err(
                BootstrapError::LocalAddr { host: String::from_str(LOOPBACK_V4), source },
            ),
            Ok(actual) => Ok(actual),
        },
    }
}

/// The addresses of a daemon whose first listener has the port `actual`, from what
/// became of the second: both on one port, or the first alone where the machine
/// has no other.
pub fn bind_loopback(actual: u16, second: Result<(), IoFailure>) -> (r: Result<
    Vec<Endpoint>,
    BootstrapError,
>)
    ensures
        match r {
            Ok(endpoints) => {
                &&& endpoints@.len() == if second is Ok {
                    2int
                } else {
                    1int
                }
                &&& endpoints@[0].host@ == LOOPBACK_V4@
                &&& endpoints@[0].port == actual
                &&& second is Ok ==> endpoints@[1].host@ == LOOPBACK_V6@ && endpoints@[1].port
                    == actual
                &&& second matches Err(e) ==> no_v6_loopback(e)
            },
            Err(e) => second matches Err(source) && !no_v6_loopback(source) && (e matches
                BootstrapError::Bind { host, port, source: s } && host@ == LOOPBACK_V6@ && port
                == actual && s == source),
        },
{
    let mut endpoints: Vec<Endpoint> = Vec::new();
    endpoints.push(Endpoint { host: String::from_str(LOOPBACK_V4), port: actual });
    match second {
        Ok(()) => {
            endpoints.push(Endpoint { host: String::from_str(LOOPBACK_V6), port: actual });
            Ok(endpoints)
        },
        Err(source) => if ipv6_loopback_unavailable(&source) {
            Ok(endpoints)
        } else {
            Err(
                BootstrapError::Bind { host: String::from_str(LOOPBACK_V6), port: actual, source },
            )
        },
    }
}

/// What the connection file tells clients.
#[derive(Debug)]
pub struct ConnectionInfo {
    pub schema: u32,
    pub wire_version: Option<u8>,
    pub endpoints: Vec<Endpoint>,
    pub key: Vec<u8>,
    pub daemon_id: [u8; 16],
    pub pid: u32,
    pub daemon_ver: String,
}

/// What a daemon tells clients, its wire version included.
pub fn connection_info(
    schema: u32,
    endpoints: Vec<Endpoint>,
    key: Vec<u8>,
    daemon_id: [u8; 16],
    pid: u32,
    daemon_ver: String,
) -> (r: ConnectionInfo)
    ensures
        r == (ConnectionInfo {
            schema,
            wire_version: Some(PROTOCOL_VERSION),
            endpoints,
            key,
            daemon_id,
            pid,
            daemon_ver,
        }),
{
    ConnectionInfo {
        schema,
        wire_version: Some(PROTOCOL_VERSION),
        endpoints,
        key,
        daemon_id,
        pid,
        daemon_ver,
    }
}

} // verus!
