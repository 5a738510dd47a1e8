//! What holds of every start of the daemon, stated on the fields of what it is started
//! with.
pub mod claims;
pub mod serving;

use crate::bootstrap::config::{
    choose_port, of_id, port_complaint, port_value, BootstrapConfig, StartEnvironment,
};
use crate::bootstrap::error::BootstrapError;
use crate::bootstrap::{
    connection_file_path, connection_file_path_with_source, normalized_build_provenance,
    CgroupPlacementConfig, ConnectionFileSource,
};
use crate::daemon_config::document::{DaemonConfig, DaemonConfigError};
use crate::daemon_config::module::ConfiguredModule;
use crate::daemon_config::StorageConfig;
use crate::paths::laws::{is_set, plain_dir, slash};
use crate::paths::DaemonRunDirError;
use crate::text::{before, trimmed};
use vstd::prelude::*;

verus! {

/// The connection file stands in the runtime directory where there is one, else in the
/// run directory below the user's home, else in the temporary directory under the
/// user's token; and it is said which.
pub proof fn where_the_connection_file_stands(
    runtime_dir: &Option<String>,
    home_dir: &Option<String>,
    temp_dir: &str,
    user_token: &str,
    r: (String, ConnectionFileSource),
    path: String,
)
    requires
        call_ensures(
            connection_file_path_with_source,
            (false, runtime_dir, home_dir, temp_dir, user_token),
            r,
        ),
        call_ensures(
            connection_file_path,
            (false, runtime_dir, home_dir, temp_dir, user_token),
            path,
        ),
    ensures
        path@ == r.0@,
        is_set(*runtime_dir) ==> r.1 == ConnectionFileSource::XdgRuntimeDir && (plain_dir(
            runtime_dir->0@,
        ) ==> r.0@ == runtime_dir->0@ + "/"@ + "subc-connection.json"@),
        !is_set(*runtime_dir) && is_set(*home_dir) ==> r.1 == ConnectionFileSource::ProdDataHome
            && (plain_dir(home_dir->0@) ==> r.0@ == home_dir->0@ + "/"@ + ".local"@ + "/"@
            + "share"@ + "/"@ + "cortexkit"@ + "/"@ + "run"@ + "/"@ + "subc-connection.json"@),
        !is_set(*runtime_dir) && !is_set(*home_dir) ==> r.1
            == ConnectionFileSource::TempDirFallback && (plain_dir(temp_dir@) ==> r.0@ == temp_dir@
            + "/"@ + ("subc-"@ + user_token@ + ".connection.json"@)),
{
    if !is_set(*runtime_dir) && is_set(*home_dir) && plain_dir(home_dir->0@) {
        reveal_strlit(".local");
        reveal_strlit("share");
        reveal_strlit("cortexkit");
        reveal_strlit("run");
        let a = home_dir->0@ + "/"@ + ".local"@;
        assert(a.last() == ".local"@.last());
        let b = a + "/"@ + "share"@;
        assert(b.last() == "share"@.last());
        let c = b + "/"@ + "cortexkit"@;
        assert(c.last() == "cortexkit"@.last());
        let d = c + "/"@ + "run"@;
        assert(d.last() == "run"@.last());
    }
}

/// Each source of the connection file has its name and its reason.
pub proof fn each_source_has_its_words(
    source: ConnectionFileSource,
    reason: &'static str,
    name: &'static str,
)
    requires
        call_ensures(ConnectionFileSource::reason, (source,), reason),
        call_ensures(ConnectionFileSource::to_text, (source,), name),
    ensures
        source is XdgRuntimeDir ==> reason@ == "XDG_RUNTIME_DIR set and non-empty"@ && name@
            == "xdg_runtime_dir"@,
        source is ProdDataHome ==> reason@ == "HOME set and non-empty (production data home)"@
            && name@ == "prod_data_home"@,
        source is TempDirFallback ==> reason@ == "XDG_RUNTIME_DIR and HOME unset or empty"@
            && name@ == "temp_dir_fallback"@,
        source is Explicit ==> reason@ == "configured path"@ && name@ == "explicit"@,
{
}

/// A build stamp is taken without the space around it; an empty one and one that says
/// that there is none are none.
pub proof fn which_build_stamps_count(value: &str, r: Option<String>)
    requires
        call_ensures(normalized_build_provenance, (value,), r),
    ensures
        r is Some <==> trimmed(value@).len() > 0 && trimmed(value@) != "unavailable"@,
        r matches Some(stamp) ==> stamp@ == trimmed(value@),
{
}

/// The port is that of the environment where one is set, else that of the file, else the
/// built-in one. A value that is no port is refused as it stands.
pub proof fn which_port_is_taken(
    env_port: &Option<String>,
    file_port: Option<u16>,
    r: Result<u16, BootstrapError>,
)
    requires
        call_ensures(choose_port, (env_port, file_port), r),
    ensures
        env_port is None || trimmed(env_port->0@).len() == 0 ==> (file_port matches Some(port)
            ==> r == Ok::<u16, BootstrapError>(port)) && (file_port is None ==> r == Ok::<
            u16,
            BootstrapError,
        >(8757u16)),
        env_port is Some && trimmed(env_port->0@).len() > 0 ==> {
            &&& port_value(env_port->0@) matches Some(port) ==> r is Ok && r->Ok_0 == port
            &&& port_value(env_port->0@) is None ==> (
            r matches Err(BootstrapError::InvalidPort { raw, source }) && raw == env_port->0
                && source@ == port_complaint(env_port->0@))
        },
{
}

proof fn one_id_holds_its_modules(modules: Seq<ConfiguredModule>, m: ConfiguredModule)
    ensures
        of_id(modules, m.module_id@).contains(m) <==> modules.contains(m),
    decreases modules.len(),
{
    if modules.len() > 0 {
        let rest = modules.drop_last();
        one_id_holds_its_modules(rest, m);
        let id = m.module_id@;
        assert(modules[modules.len() - 1] == modules.last());
        if modules.contains(m) {
            let k = choose|k: int| 0 <= k < modules.len() && modules[k] == m;
            if k < rest.len() {
                assert(rest[k] == m);
            }
        }
        if rest.contains(m) {
            let k = choose|k: int| 0 <= k < rest.len() && rest[k] == m;
            assert(modules[k] == m);
        }
        if modules.last().module_id@ == id {
            let was = of_id(rest, id);
            let all = was.push(modules.last());
            assert(all[was.len() as int] == modules.last());
            if was.contains(m) {
                let k = choose|k: int| 0 <= k < was.len() && was[k] == m;
                assert(all[k] == m);
            }
            if all.contains(m) {
                let k = choose|k: int| 0 <= k < all.len() && all[k] == m;
                if k < was.len() {
                    assert(was[k] == m);
                }
            }
        }
    }
}

/// A start takes from the file what the file says, each setting under its own name, and
/// from the environment the port and the connection file.
pub proof fn a_start_takes_what_the_file_says<W>(
    path: &str,
    file: DaemonConfig,
    env: &StartEnvironment,
    daemon_ver: String,
    r: Result<BootstrapConfig<W>, BootstrapError>,
    m: ConfiguredModule,
    i: int,
    j: int,
)
    requires
        call_ensures(
            BootstrapConfig::<W>::from_env_with_daemon_config_path,
            (path, Ok(Some(file)), env, daemon_ver),
            r,
        ),
        r is Ok,
    ensures
        ({
            let config = r->Ok_0;
            &&& config.storage_config == file.storage
            &&& config.admission_facts_carrier_module_id == file.admission_facts_carrier_module_id
            &&& config.admission_facts_targets == file.admission_facts_targets
            &&& config.route_bind_relay_default_ms == file.route_bind_relay_timeout_ms
            &&& config.reserved_capabilities == file.reserved_capabilities
            &&& config.configured_port == file.port
            &&& config.daemon_config_path is Some && config.daemon_config_path->0@ == path@
            &&& config.daemon_ver == daemon_ver
            &&& config.configured_modules@.contains(m) <==> file.modules@.contains(m)
            &&& 0 <= i < j < config.configured_modules@.len() ==> !before(
                config.configured_modules@[j].module_id@,
                config.configured_modules@[i].module_id@,
            )
            &&& env.port is None ==> (file.port matches Some(port) ==> config.port == port) && (
            file.port is None ==> config.port == 8757)
            &&& config.watchdog_config is None
            &&& config.cgroup_placement is Disabled
            &&& config.capture_logs_dir is None
            &&& config.terminal_journal_path is None
            &&& config.machine_id_path is None
            &&& config.live_children_path is None
        }),
{
    let config = r->Ok_0;
    one_id_holds_its_modules(config.configured_modules@, m);
    one_id_holds_its_modules(file.modules@, m);
    assert(of_id(config.configured_modules@, m.module_id@) == of_id(file.modules@, m.module_id@));
    if 0 <= i < j < config.configured_modules@.len() {
        let _ = config.configured_modules@[i];
        let _ = config.configured_modules@[j];
    }
}

/// Without a file a start has nothing configured and still notes where the file would
/// be; a file that could not be loaded ends the start.
pub proof fn a_start_without_a_file<W>(
    path: &str,
    loaded: Result<Option<DaemonConfig>, DaemonConfigError>,
    env: &StartEnvironment,
    daemon_ver: String,
    r: Result<BootstrapConfig<W>, BootstrapError>,
)
    requires
        call_ensures(
            BootstrapConfig::<W>::from_env_with_daemon_config_path,
            (path, loaded, env, daemon_ver),
            r,
        ),
    ensures
        loaded matches Err(e) ==> r == Err::<BootstrapConfig<W>, _>(
            BootstrapError::DaemonConfig(e),
        ),
        loaded matches Ok(None) ==> (r matches Ok(config) ==> config.configured_modules@.len() == 0
            && config.storage_config is None && config.admission_facts_carrier_module_id is None
            && config.admission_facts_targets is None && config.route_bind_relay_default_ms is None
            && config.reserved_capabilities@.len() == 0 && config.configured_port is None
            && config.daemon_config_path is Some && config.daemon_config_path->0@ == path@ && (
        env.port is None ==> config.port == 8757)),
{
}

/// The daemon's own program alone keeps its files in the user's directories: captured
/// logs, the journal of ends and the list of children in the run directory, and the
/// machine's id in the data home. All else stays as it was.
pub proof fn where_the_daemons_own_files_stand<W>(
    base: BootstrapConfig<W>,
    run_dir: String,
    data_home: &str,
    r: Result<BootstrapConfig<W>, BootstrapError>,
)
    requires
        call_ensures(
            BootstrapConfig::<W>::from_env_for_daemon_binary,
            (Ok(base), Ok(run_dir), data_home, false),
            r,
        ),
        plain_dir(run_dir@),
        plain_dir(data_home@),
    ensures
        r is Ok,
        ({
            let config = r->Ok_0;
            &&& config.capture_logs_dir is Some && config.capture_logs_dir->0@ == run_dir@ + "/"@
                + "logs"@
            &&& config.terminal_journal_path is Some && config.terminal_journal_path->0@ == run_dir@
                + "/"@ + "terminals.jsonl"@
            &&& config.live_children_path is Some && config.live_children_path->0@ == run_dir@
                + "/"@ + "live-children.json"@
            &&& config.machine_id_path is Some && config.machine_id_path->0@ == data_home@ + "/"@
                + "cortexkit"@ + "/"@ + "machine-id"@
            &&& config.port == base.port
            &&& config.connection_file_path == base.connection_file_path
            &&& config.configured_modules == base.configured_modules
            &&& config.storage_config == base.storage_config
            &&& config.cgroup_placement == base.cgroup_placement
            &&& config.watchdog_config == base.watchdog_config
        }),
{
    reveal_strlit("cortexkit");
    let a = data_home@ + "/"@ + "cortexkit"@;
    assert(a.last() == "cortexkit"@.last());
}

/// A run directory that could not be had ends the start before anything else does.
pub proof fn a_start_without_a_run_directory<W>(
    base: Result<BootstrapConfig<W>, BootstrapError>,
    run_dir: Result<String, DaemonRunDirError>,
    data_home: &str,
    windows: bool,
    r: Result<BootstrapConfig<W>, BootstrapError>,
)
    requires
        call_ensures(
            BootstrapConfig::<W>::from_env_for_daemon_binary,
            (base, run_dir, data_home, windows),
            r,
        ),
    ensures
        run_dir matches Err(e) ==> r == Err::<BootstrapConfig<W>, _>(BootstrapError::RunDir(e)),
        run_dir is Ok ==> (base matches Err(e) ==> r == Err::<BootstrapConfig<W>, _>(e)),
{
}

/// A fresh configuration has the path, the port and the version that it was given, and
/// nothing else.
pub proof fn a_fresh_configuration_is_bare<W>(
    connection_file_path: String,
    port: u16,
    daemon_ver: String,
    r: BootstrapConfig<W>,
)
    requires
        call_ensures(BootstrapConfig::<W>::new, (connection_file_path, port, daemon_ver), r),
    ensures
        r.connection_file_path == connection_file_path,
        r.port == port,
        r.daemon_ver == daemon_ver,
        r.connection_file_source == ConnectionFileSource::Explicit,
        r.configured_modules@.len() == 0,
        r.storage_config is None,
        r.daemon_config_path is None,
        r.configured_port is None,
        r.route_bind_relay_default_ms is None,
        r.reserved_capabilities@.len() == 0,
        r.watchdog_config is None,
        r.cgroup_placement is Disabled,
        r.capture_logs_dir is None,
        r.terminal_journal_path is None,
        r.machine_id_path is None,
        r.live_children_path is None,
{
}

/// Each setting of a start is set under its own name and leaves the others alone.
pub proof fn each_path_is_set_under_its_own_name<W>(base: BootstrapConfig<W>, path: String)
    ensures
        forall|r: BootstrapConfig<W>| #[trigger]
            call_ensures(BootstrapConfig::<W>::with_live_children_record, (base, path), r) ==> r
                == (BootstrapConfig { live_children_path: Some(path), ..base }),
        forall|r: BootstrapConfig<W>| #[trigger]
            call_ensures(BootstrapConfig::<W>::with_machine_id_path, (base, path), r) ==> r == (
            BootstrapConfig { machine_id_path: Some(path), ..base }),
        forall|r: BootstrapConfig<W>| #[trigger]
            call_ensures(BootstrapConfig::<W>::with_capture_logs_dir, (base, path), r) ==> r == (
            BootstrapConfig { capture_logs_dir: Some(path), ..base }),
        forall|r: BootstrapConfig<W>| #[trigger]
            call_ensures(BootstrapConfig::<W>::with_terminal_journal_path, (base, path), r) ==> r
                == (BootstrapConfig { terminal_journal_path: Some(path), ..base }),
{
}

/// Each policy of a start is set under its own name and leaves the others alone.
pub proof fn each_policy_is_set_under_its_own_name<W>(
    base: BootstrapConfig<W>,
    placement: CgroupPlacementConfig,
    storage: Option<StorageConfig>,
    carrier: Option<String>,
    targets: Option<Vec<String>>,
    ms: Option<u64>,
    reserved: Vec<(String, String)>,
    watchdog: W,
)
    ensures
        forall|r: BootstrapConfig<W>| #[trigger]
            call_ensures(BootstrapConfig::<W>::with_cgroup_placement, (base, placement), r) ==> r
                == (BootstrapConfig { cgroup_placement: placement, ..base }),
        forall|r: BootstrapConfig<W>| #[trigger]
            call_ensures(BootstrapConfig::<W>::with_storage_config, (base, storage), r) ==> r == (
            BootstrapConfig { storage_config: storage, ..base }),
        forall|r: BootstrapConfig<W>| #[trigger]
            call_ensures(
                BootstrapConfig::<W>::with_admission_facts_config,
                (base, carrier, targets),
                r,
            ) ==> r == (BootstrapConfig {
                admission_facts_carrier_module_id: carrier,
                admission_facts_targets: targets,
                ..base
            }),
        forall|r: BootstrapConfig<W>| #[trigger]
            call_ensures(BootstrapConfig::<W>::with_route_bind_relay_default_ms, (base, ms), r)
                ==> r == (BootstrapConfig { route_bind_relay_default_ms: ms, ..base }),
        forall|r: BootstrapConfig<W>| #[trigger]
            call_ensures(BootstrapConfig::<W>::with_reserved_capabilities, (base, reserved), r)
                ==> r == (BootstrapConfig { reserved_capabilities: reserved, ..base }),
        forall|r: BootstrapConfig<W>| #[trigger]
            call_ensures(BootstrapConfig::<W>::with_watchdog_config, (base, watchdog), r) ==> r
                == (BootstrapConfig { watchdog_config: Some(watchdog), ..base }),
{
}

/// Taking over a file sets what the file says and leaves the rest as it was; a file that
/// could not be loaded is refused.
pub proof fn a_file_is_taken_over_whole<W>(
    base: BootstrapConfig<W>,
    path: &str,
    loaded: Result<Option<DaemonConfig>, DaemonConfigError>,
    r: Result<BootstrapConfig<W>, BootstrapError>,
    m: ConfiguredModule,
)
    requires
        call_ensures(BootstrapConfig::<W>::with_daemon_config_path, (base, path, loaded), r),
    ensures
        loaded matches Err(e) ==> r == Err::<BootstrapConfig<W>, _>(
            BootstrapError::DaemonConfig(e),
        ),
        loaded is Ok ==> (r matches Ok(config) && config.port == base.port
            && config.connection_file_path == base.connection_file_path && config.daemon_ver
            == base.daemon_ver && config.connection_file_source == base.connection_file_source
            && config.capture_logs_dir == base.capture_logs_dir && config.machine_id_path
            == base.machine_id_path && config.live_children_path == base.live_children_path
            && config.terminal_journal_path == base.terminal_journal_path
            && config.daemon_config_path is Some && config.daemon_config_path->0@ == path@),
        loaded matches Ok(Some(file)) ==> {
            let config = r->Ok_0;
            &&& config.configured_modules@.contains(m) <==> file.modules@.contains(m)
            &&& config.storage_config == file.storage
            &&& config.admission_facts_carrier_module_id == file.admission_facts_carrier_module_id
            &&& config.admission_facts_targets == file.admission_facts_targets
            &&& config.route_bind_relay_default_ms == file.route_bind_relay_timeout_ms
            &&& config.reserved_capabilities == file.reserved_capabilities
            &&& config.configured_port == file.port
        },
        loaded matches Ok(None) ==> r->Ok_0.configured_modules@.len() == 0
            && r->Ok_0.storage_config is None && r->Ok_0.configured_port is None,
{
    if loaded is Ok && loaded->Ok_0 is Some {
        let file = loaded->Ok_0->0;
        let config = r->Ok_0;
        one_id_holds_its_modules(config.configured_modules@, m);
        one_id_holds_its_modules(file.modules@, m);
        assert(of_id(config.configured_modules@, m.module_id@) == of_id(
            file.modules@,
            m.module_id@,
        ));
    }
}

/// The modules that are set are all there, in the order of their ids, and nothing else
/// changes.
pub proof fn modules_are_set_in_the_order_of_their_ids<W>(
    base: BootstrapConfig<W>,
    modules: Vec<ConfiguredModule>,
    r: BootstrapConfig<W>,
    m: ConfiguredModule,
    i: int,
    j: int,
)
    requires
        call_ensures(BootstrapConfig::<W>::with_configured_modules, (base, modules), r),
    ensures
        r.configured_modules@.contains(m) <==> modules@.contains(m),
        0 <= i < j < r.configured_modules@.len() ==> !before(
            r.configured_modules@[j].module_id@,
            r.configured_modules@[i].module_id@,
        ),
        r.port == base.port,
        r.storage_config == base.storage_config,
        r.daemon_config_path == base.daemon_config_path,
{
    one_id_holds_its_modules(r.configured_modules@, m);
    one_id_holds_its_modules(modules@, m);
    assert(of_id(r.configured_modules@, m.module_id@) == of_id(modules@, m.module_id@));
    if 0 <= i < j < r.configured_modules@.len() {
        let _ = r.configured_modules@[i];
        let _ = r.configured_modules@[j];
    }
}

/// A port is written in digits, with a plus in front or not; anything else in it, or
/// nothing at all, is no port.
pub proof fn which_texts_are_no_port(
    raw: String,
    file_port: Option<u16>,
    r: Result<u16, BootstrapError>,
    i: int,
)
    requires
        call_ensures(choose_port, (&Some(raw), file_port), r),
        trimmed(raw@).len() > 0,
    ensures
        0 <= i < raw@.len() && !('0' <= raw@[i] && raw@[i] <= '9') && (i > 0 || raw@[i] != '+')
            ==> r is Err,
        raw@ == "+"@ ==> r is Err,
        r is Err ==> (r->Err_0 matches BootstrapError::InvalidPort { raw: told, source } && told
            == raw && source@ == port_complaint(raw@)),
{
    let digits = crate::bootstrap::config::unsigned_part(raw@);
    if 0 <= i < raw@.len() && !('0' <= raw@[i] && raw@[i] <= '9') && (i > 0 || raw@[i] != '+') {
        if raw@[0] == '+' {
            assert(digits[i - 1] == raw@[i]);
            assert(!crate::bootstrap::config::decimal_digit(digits[i - 1]));
        } else {
            assert(!crate::bootstrap::config::decimal_digit(digits[i]));
        }
    }
    reveal_strlit("+");
}

/// A start whose file was read or is absent goes on with the port of the environment, or
/// of the file where that has none; only a value that is no port ends it.
pub proof fn a_start_goes_on_with_its_port<W>(
    path: &str,
    file: Option<DaemonConfig>,
    env: &StartEnvironment,
    daemon_ver: String,
    r: Result<BootstrapConfig<W>, BootstrapError>,
    temp_dir: &str,
    user_token: &str,
    files: (String, ConnectionFileSource),
)
    requires
        call_ensures(
            BootstrapConfig::<W>::from_env_with_daemon_config_path,
            (path, Ok(file), env, daemon_ver),
            r,
        ),
        call_ensures(
            connection_file_path_with_source,
            (
                env.windows,
                &env.runtime_dir,
                &env.home,
                temp_dir,
                user_token,
            ),
            files,
        ),
        temp_dir@ == env.temp_dir@,
        user_token@ == env.user_token@,
    ensures
        env.port is None || trimmed(env.port->0@).len() == 0 ==> r is Ok,
        env.port is Some && trimmed(env.port->0@).len() > 0 ==> (port_value(
            env.port->0@,
        ) matches Some(port) ==> r is Ok && r->Ok_0.port == port) && (port_value(env.port->0@)
            is None ==> (r matches Err(BootstrapError::InvalidPort { raw, source }) && Some(raw)
            == env.port && source@ == port_complaint(env.port->0@))),
        r matches Ok(config) ==> config.connection_file_path@ == files.0@
            && config.connection_file_source == files.1,
{
}

/// On Windows the same files stand in the same places, behind backslashes.
pub proof fn where_the_files_stand_on_windows<W>(
    runtime_dir: &Option<String>,
    home_dir: &Option<String>,
    temp_dir: &str,
    user_token: &str,
    file: (String, ConnectionFileSource),
    base: BootstrapConfig<W>,
    run_dir: String,
    data_home: &str,
    r: Result<BootstrapConfig<W>, BootstrapError>,
)
    requires
        call_ensures(
            connection_file_path_with_source,
            (true, runtime_dir, home_dir, temp_dir, user_token),
            file,
        ),
        call_ensures(
            BootstrapConfig::<W>::from_env_for_daemon_binary,
            (Ok(base), Ok(run_dir), data_home, true),
            r,
        ),
        run_dir@.len() > 2,
        !slash(run_dir@.last()),
    ensures
        is_set(*runtime_dir) && runtime_dir->0@.len() > 2 && !slash(runtime_dir->0@.last())
            ==> file.0@ == runtime_dir->0@ + "\\"@ + "subc-connection.json"@ && file.1
            == ConnectionFileSource::XdgRuntimeDir,
        !is_set(*runtime_dir) && !is_set(*home_dir) && temp_dir@.len() > 2 && !slash(
            temp_dir@.last(),
        ) ==> file.0@ == temp_dir@ + "\\"@ + ("subc-"@ + user_token@ + ".connection.json"@),
        r is Ok,
        r->Ok_0.capture_logs_dir is Some && r->Ok_0.capture_logs_dir->0@ == run_dir@ + "\\"@
            + "logs"@,
        r->Ok_0.terminal_journal_path is Some && r->Ok_0.terminal_journal_path->0@ == run_dir@
            + "\\"@ + "terminals.jsonl"@,
        r->Ok_0.live_children_path is Some && r->Ok_0.live_children_path->0@ == run_dir@ + "\\"@
            + "live-children.json"@,
{
    reveal_strlit("subc-connection.json");
    reveal_strlit("subc-");
    reveal_strlit("logs");
    reveal_strlit("terminals.jsonl");
    reveal_strlit("live-children.json");
    let token = "subc-"@ + user_token@ + ".connection.json"@;
    assert(token[1] == "subc-"@[1]);
}

} // verus!
