//! Starting the daemon: which files and port it uses, whether another one runs,
//! and how it ends.
pub mod config;
pub mod error;
pub mod laws;
pub mod serve;
pub mod singleton;

use crate::paths::{join_name, join_names, joined_name, joined_names, set_value};
use crate::text::{same, trim, trimmed};
use vstd::prelude::*;

verus! {

/// The port where neither the environment nor the configuration names one.
pub const DEFAULT_SUBC_PORT: u16 = 8757;

/// The environment variable that names the port.
pub const SUBC_PORT_ENV: &'static str = "SUBC_PORT";

/// The name of the file by which clients find the daemon.
pub const CONNECTION_FILE_NAME: &'static str = "subc-connection.json";

/// Why the connection file is where it is.
#[derive(Clone, Copy, Debug, PartialEq, Eq, Structural)]
pub enum ConnectionFileSource {
    XdgRuntimeDir,
    ProdDataHome,
    TempDirFallback,
    Explicit,
}

/// The reason in words.
pub open spec fn source_reason(source: ConnectionFileSource) -> Seq<char> {
    match source {
        ConnectionFileSource::XdgRuntimeDir => "XDG_RUNTIME_DIR set and non-empty"@,
        ConnectionFileSource::ProdDataHome => "HOME set and non-empty (production data home)"@,
        ConnectionFileSource::TempDirFallback => "XDG_RUNTIME_DIR and HOME unset or empty"@,
        ConnectionFileSource::Explicit => "configured path"@,
    }
}

/// The source's name.
pub open spec fn source_name(source: ConnectionFileSource) -> Seq<char> {
    match source {
        ConnectionFileSource::XdgRuntimeDir => "xdg_runtime_dir"@,
        ConnectionFileSource::ProdDataHome => "prod_data_home"@,
        ConnectionFileSource::TempDirFallback => "temp_dir_fallback"@,
        ConnectionFileSource::Explicit => "explicit"@,
    }
}

impl ConnectionFileSource {
    /// The reason in words.
    pub fn reason(self) -> (r: &'static str)
        ensures
            r@ == source_reason(self),
    {
        match self {
            ConnectionFileSource::XdgRuntimeDir => "XDG_RUNTIME_DIR set and non-empty",
            ConnectionFileSource::ProdDataHome => "HOME set and non-empty (production data home)",
            ConnectionFileSource::TempDirFallback => "XDG_RUNTIME_DIR and HOME unset or empty",
            ConnectionFileSource::Explicit => "configured path",
        }
    }

    /// The source's name.
    pub fn to_text(self) -> (r: &'static str)
        ensures
            r@ == source_name(self),
    {
        match self {
            ConnectionFileSource::XdgRuntimeDir => "xdg_runtime_dir",
            ConnectionFileSource::ProdDataHome => "prod_data_home",
            ConnectionFileSource::TempDirFallback => "temp_dir_fallback",
            ConnectionFileSource::Explicit => "explicit",
        }
    }
}

/// Where module cgroups are prepared. A daemon inside another process prepares
/// none unless it is told to.
#[derive(Debug)]
pub enum CgroupPlacementConfig {
    Disabled,
    Current,
    Root(String),
}

impl Default for CgroupPlacementConfig {
    fn default() -> (r: CgroupPlacementConfig)
        ensures
            r is Disabled,
    {
        CgroupPlacementConfig::Disabled
    }
}

/// The connection file below a home directory.
pub open spec fn prod_connection_file(windows: bool, home: Seq<char>) -> Seq<char> {
    joined_name(
        windows,
        joined_names(
            windows,
            joined_names(windows, home, ".local"@, "share"@),
            "cortexkit"@,
            "run"@,
        ),
        CONNECTION_FILE_NAME@,
    )
}

/// The connection file and why it is there: the runtime directory comes first,
/// then the data home of the user, then a file in the temporary directory that is
/// named for the user.
pub open spec fn connection_file(
    windows: bool,
    runtime_dir: Option<String>,
    home_dir: Option<String>,
    temp_dir: Seq<char>,
    user_token: Seq<char>,
) -> (Seq<char>, ConnectionFileSource) {
    match set_value(runtime_dir) {
        Some(dir) => (
            joined_name(windows, dir, CONNECTION_FILE_NAME@),
            ConnectionFileSource::XdgRuntimeDir,
        ),
        None => match set_value(home_dir) {
            Some(home) => (
                prod_connection_file(windows, home),
                ConnectionFileSource::ProdDataHome,
            ),
            None => (
                joined_name(windows, temp_dir, "subc-"@ + user_token + ".connection.json"@),
                ConnectionFileSource::TempDirFallback,
            ),
        },
    }
}

/// The connection file and why it is there.
pub fn connection_file_path_with_source(
    windows: bool,
    runtime_dir: &Option<String>,
    home_dir: &Option<String>,
    temp_dir: &str,
    user_token: &str,
) -> (r: (String, ConnectionFileSource))
    ensures
        (r.0@, r.1) == connection_file(
            windows,
            *runtime_dir,
            *home_dir,
            temp_dir@,
            user_token@,
        ),
{
    if let Some(dir) = runtime_dir {
        if !dir.as_str().is_empty() {
            return (
                join_name(windows, dir.as_str(), CONNECTION_FILE_NAME),
                ConnectionFileSource::XdgRuntimeDir,
            );
        }
    }
    if let Some(home) = home_dir {
        if !home.as_str().is_empty() {
            let data: String = join_names(windows, home.as_str(), ".local", "share");
            let run: String = join_names(windows, data.as_str(), "cortexkit", "run");
            return (
                join_name(windows, run.as_str(), CONNECTION_FILE_NAME),
                ConnectionFileSource::ProdDataHome,
            );
        }
    }
    let name: String = String::from_str("subc-").concat(user_token).concat(".connection.json");
    (join_name(windows, temp_dir, name.as_str()), ConnectionFileSource::TempDirFallback)
}

/// The connection file.
pub fn connection_file_path(
    windows: bool,
    runtime_dir: &Option<String>,
    home_dir: &Option<String>,
    temp_dir: &str,
    user_token: &str,
) -> (r: String)
    ensures
        r@ == connection_file(windows, *runtime_dir, *home_dir, temp_dir@, user_token@).0,
{
    connection_file_path_with_source(windows, runtime_dir, home_dir, temp_dir, user_token).0
}

/// A build stamp that says something: white space at its ends does not count, and
/// neither an empty stamp nor the word `unavailable` says anything.
pub open spec fn build_stamp(value: Seq<char>) -> Option<Seq<char>> {
    if trimmed(value).len() == 0 || trimmed(value) == "unavailable"@ {
        None
    } else {
        Some(trimmed(value))
    }
}

/// A build stamp that says something.
pub fn normalized_build_provenance(value: &str) -> (r: Option<String>)
    ensures
        r is Some <==> build_stamp(value@) is Some,
        r matches Some(stamp) ==> build_stamp(value@) == Some(stamp@),
{
    let value: &str = trim(value);
    if value.is_empty() || same(value, "unavailable") {
        return None;
    }
    Some(value.to_owned())
}

} // verus!
