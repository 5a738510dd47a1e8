//! Why the daemon does not start.
use crate::daemon_config::document::{config_error_text, DaemonConfigError};
use crate::paths::{run_dir_refusal, DaemonRunDirError};
use crate::text::{decimal, decimal_text};
use vstd::prelude::*;

verus! {

/// The kinds of an input or output error that the daemon tells apart.
#[derive(Clone, Copy, Debug, PartialEq, Eq, Structural)]
pub enum IoKind {
    NotFound,
    AddrInUse,
    AddrNotAvailable,
    Unsupported,
    Other,
}

/// An input or output error.
#[derive(Debug)]
pub struct IoFailure {
    pub kind: IoKind,
    pub raw_os_error: Option<i32>,
    pub text: String,
}

/// What is wrong with a connection file.
#[derive(Clone, Copy, Debug, PartialEq, Eq, Structural)]
pub enum ConnectionFileFault {
    /// There is none.
    NotFound,
    /// It cannot be read for another reason.
    Io,
    JsonRead,
    UnsupportedSchema,
    Invalid,
    KeyTooShort,
    InsecurePermissions,
    MissingParent,
    MissingFileName,
    InsecureParentDirectory,
    JsonWrite,
    Random,
    WireVersionMismatch,
}

/// An error with a connection file.
#[derive(Debug)]
pub struct ConnectionFileError {
    pub fault: ConnectionFileFault,
    pub text: String,
}

/// Why the daemon does not start.
#[derive(Debug)]
#[allow(inconsistent_fields)]
pub enum BootstrapError {
    Signal(String),
    InvalidPort { raw: String, source: String },
    ConnectionFileRead { path: String, source: ConnectionFileError },
    ConnectionFileWrite { path: String, source: ConnectionFileError },
    GenerateConnectionFile(ConnectionFileError),
    StartLockCreate { path: String, source: IoFailure },
    StartLockBusy { path: String, attempts: usize },
    RemoveStale { path: String, source: IoFailure },
    Bind { host: String, port: u16, source: IoFailure },
    LocalAddr { host: String, source: IoFailure },
    DaemonConfig(DaemonConfigError),
    MachineId(String),
    RunDir(DaemonRunDirError),
    Serve(String),
    ServeJoin(String),
}

/// The text of an error.
pub open spec fn bootstrap_error_text(e: BootstrapError) -> Seq<char> {
    match e {
        BootstrapError::Signal(text) => "failed to register SIGTERM handler: "@ + text@,
        BootstrapError::InvalidPort { raw, source } => "invalid SUBC_PORT value '"@ + raw@ + "': "@
            + source@,
        BootstrapError::ConnectionFileRead { path, source } => "failed to read connection file "@
            + path@ + ": "@ + source.text@,
        BootstrapError::ConnectionFileWrite { path, source } =>
            "failed to publish connection file "@ + path@ + ": "@ + source.text@,
        BootstrapError::GenerateConnectionFile(source) =>
            "failed to generate connection-file auth material: "@ + source.text@,
        BootstrapError::StartLockCreate { path, source } => "failed to create start lock "@ + path@
            + ": "@ + source.text@,
        BootstrapError::StartLockBusy { path, attempts } => "start lock "@ + path@
            + " remained busy after "@ + decimal(attempts as nat) + " attempts"@,
        BootstrapError::RemoveStale { path, source } => "failed to remove stale connection file "@
            + path@ + ": "@ + source.text@,
        BootstrapError::Bind { host, port, source } => if source.kind == IoKind::AddrInUse {
            "port "@ + decimal(port as nat) + " in use on loopback "@ + host@ + ": "@ + source.text@
                + "; set the port in config"@
        } else {
            "failed to bind loopback TCP "@ + host@ + ":"@ + decimal(port as nat) + ": "@
                + source.text@
        },
        BootstrapError::LocalAddr { host, source } => "failed to read local address for "@ + host@
            + ": "@ + source.text@,
        BootstrapError::DaemonConfig(e) => "failed to load daemon config: "@ + config_error_text(e@),
        BootstrapError::MachineId(text) => "refusing to start: "@ + text@,
        BootstrapError::RunDir(e) => "refusing to start: "@ + run_dir_refusal(
            e.path@,
        ),
        BootstrapError::Serve(text) => "daemon server failed: "@ + text@,
        BootstrapError::ServeJoin(text) => "daemon server task failed: "@ + text@,
    }
}

fn of_path(head: &str, path: &str, tail: &str) -> (r: String)
    ensures
        r@ == head@ + path@ + ": "@ + tail@,
{
    String::from_str(head).concat(path).concat(": ").concat(tail)
}

impl BootstrapError {
    /// The text of the error.
    pub fn to_text(&self) -> (r: String)
        ensures
            r@ == bootstrap_error_text(*self),
    {
        match self {
            BootstrapError::Signal(text) => String::from_str(
                "failed to register SIGTERM handler: ",
            ).concat(text.as_str()),
            BootstrapError::InvalidPort { raw, source } => String::from_str(
                "invalid SUBC_PORT value '",
            ).concat(raw.as_str()).concat("': ").concat(source.as_str()),
            BootstrapError::ConnectionFileRead { path, source } => of_path(
                "failed to read connection file ",
                path.as_str(),
                source.text.as_str(),
            ),
            BootstrapError::ConnectionFileWrite { path, source } => of_path(
                "failed to publish connection file ",
                path.as_str(),
                source.text.as_str(),
            ),
            BootstrapError::GenerateConnectionFile(source) => String::from_str(
                "failed to generate connection-file auth material: ",
            ).concat(source.text.as_str()),
            BootstrapError::StartLockCreate { path, source } => of_path(
                "failed to create start lock ",
                path.as_str(),
                source.text.as_str(),
            ),
            BootstrapError::StartLockBusy { path, attempts } => String::from_str(
                "start lock ",
            ).concat(path.as_str()).concat(" remained busy after ").concat(
                decimal_text(*attempts as u64).as_str(),
            ).concat(" attempts"),
            BootstrapError::RemoveStale { path, source } => of_path(
                "failed to remove stale connection file ",
                path.as_str(),
                source.text.as_str(),
            ),
            BootstrapError::Bind { host, port, source } => if source.kind == IoKind::AddrInUse {
                String::from_str("port ").concat(decimal_text(*port as u64).as_str()).concat(
                    " in use on loopback ",
                ).concat(host.as_str()).concat(": ").concat(source.text.as_str()).concat(
                    "; set the port in config",
                )
            } else {
                String::from_str("failed to bind loopback TCP ").concat(host.as_str()).concat(
                    ":",
                ).concat(decimal_text(*port as u64).as_str()).concat(": ").concat(
                    source.text.as_str(),
                )
            },
            BootstrapError::LocalAddr { host, source } => of_path(
                "failed to read local address for ",
                host.as_str(),
                source.text.as_str(),
            ),
            BootstrapError::DaemonConfig(e) => String::from_str(
                "failed to load daemon config: ",
            ).concat(e.to_text().as_str()),
            BootstrapError::MachineId(text) => String::from_str("refusing to start: ").concat(
                text.as_str(),
            ),
            BootstrapError::RunDir(e) => String::from_str("refusing to start: ").concat(
                e.to_text().as_str(),
            ),
            BootstrapError::Serve(text) => String::from_str("daemon server failed: ").concat(
                text.as_str(),
            ),
            BootstrapError::ServeJoin(text) => String::from_str(
                "daemon server task failed: ",
            ).concat(text.as_str()),
        }
    }
}

} // verus!
