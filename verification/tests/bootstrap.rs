use subc_daemon::bootstrap::config::{choose_port, BootstrapConfig, StartEnvironment};
use subc_daemon::bootstrap::error::{
    BootstrapError, ConnectionFileError, ConnectionFileFault, IoFailure, IoKind,
};
use subc_daemon::bootstrap::serve::{
    control_handler, daemon_incarnation, maxstdio_raise, nofile_raise, prepare_cgroup_placement,
    relaxed_tolerance_secs, run_next, serve_next, serve_steps, supervisor_setup, ProcessFacts,
    RunAction, RunEvent, Running, ServeNext, ServeStep,
};
use subc_daemon::bootstrap::singleton::{
    bind_loopback, connection_info, first_listener, ipv6_loopback_unavailable,
    is_absent_or_stale_connection_file, probe_endpoint, probe_existing, start_lock_directory,
    start_lock_path, start_lock_step, EndpointFinding, LockStep, LockTry, Probe, SingletonClaim,
    Stage, StageEvent, START_LOCK_RETRIES,
};
use subc_daemon::bootstrap::{
    connection_file_path, connection_file_path_with_source, normalized_build_provenance,
    CgroupPlacementConfig, ConnectionFileSource, DEFAULT_SUBC_PORT,
};
use subc_daemon::control::wire::PROTOCOL_VERSION;
use subc_daemon::daemon_config::document::{DaemonConfig, DaemonConfigError};
use subc_daemon::daemon_config::module::ConfiguredModule;
use subc_daemon::daemon_config::policy::{HealthAction, HealthConfig, RestartPolicy};
use subc_daemon::daemon_config::{ModuleProtocol, RestartRequiredSection, StorageConfig};
use subc_daemon::paths::{daemon_run_dir, HomeVariables};
use subc_daemon::span::Span;

type Config = BootstrapConfig<u8>;

fn some(value: &str) -> Option<String> {
    Some(value.to_string())
}

fn unix_data(xdg_data_home: Option<String>, home: Option<String>) -> HomeVariables {
    HomeVariables {
        windows: false,
        xdg_config_home: None,
        xdg_data_home,
        app_data: None,
        user_profile: None,
        home,
    }
}

fn io(kind: IoKind, text: &str) -> IoFailure {
    IoFailure { kind, raw_os_error: None, text: text.to_string() }
}

fn file_error(fault: ConnectionFileFault) -> ConnectionFileError {
    ConnectionFileError { fault, text: "broken".to_string() }
}

fn health() -> HealthConfig {
    HealthConfig {
        cadence: Span::from_secs(30),
        deadline: Span::from_secs(5),
        failure_threshold: 3,
        on_degraded: HealthAction::Report,
        on_failing: HealthAction::Report,
        critical: false,
    }
}

fn module(id: &str, program: &str, budget: Option<u64>) -> ConfiguredModule {
    ConfiguredModule {
        module_id: id.to_string(),
        program: program.to_string(),
        args: Vec::new(),
        env: Vec::new(),
        log: None,
        enabled: true,
        reserved: false,
        reserved_prefixes: Vec::new(),
        protocol: ModuleProtocol::Subc,
        health: health(),
        drain_timeout_ms: None,
        route_bind_relay_timeout_ms: budget,
        restart: RestartPolicy::default(),
    }
}

fn file(port: Option<u16>, modules: Vec<ConfiguredModule>) -> DaemonConfig {
    DaemonConfig {
        path: "/etc/subc.jsonc".to_string(),
        port,
        drain_timeout_ms: None,
        route_bind_relay_timeout_ms: Some(30_000),
        modules,
        storage: Some(StorageConfig::Sqlite { data_home: "/data".to_string() }),
        admission_facts_carrier_module_id: some("fed"),
        admission_facts_targets: Some(vec!["t".to_string()]),
        reserved_capabilities: vec![("a/v1".to_string(), "m".to_string())],
    }
}

fn environment(port: Option<&str>) -> StartEnvironment {
    StartEnvironment {
        windows: false,
        port: port.map(str::to_string),
        runtime_dir: some("/run/user/1000"),
        home: some("/home/user"),
        temp_dir: "/tmp".to_string(),
        user_token: "1000".to_string(),
    }
}

fn from_env(
    loaded: Result<Option<DaemonConfig>, DaemonConfigError>,
    port: Option<&str>,
) -> Result<Config, BootstrapError> {
    BootstrapConfig::from_env_with_daemon_config_path(
        "/etc/subc.jsonc",
        loaded,
        &environment(port),
        "1.2.3".to_string(),
    )
}

#[test]
fn normalized_build_provenance_preserves_real_values() {
    assert_eq!(normalized_build_provenance("abc"), Some("abc".to_string()));
}

#[test]
fn normalized_build_provenance_omits_unavailable_and_empty_values() {
    assert_eq!(normalized_build_provenance("unavailable"), None);
    assert_eq!(normalized_build_provenance(""), None);
}

#[test]
fn a_build_stamp_is_trimmed() {
    assert_eq!(normalized_build_provenance(" \tabc\n"), Some("abc".to_string()));
    assert_eq!(normalized_build_provenance("  unavailable "), None);
    assert_eq!(normalized_build_provenance(" \u{a0} "), None);
}

#[test]
fn restart_required_sections_are_the_rescan_cannot_apply_set() {
    assert_eq!(
        RestartRequiredSection::ALL.map(RestartRequiredSection::label),
        [
            "port",
            "storage",
            "admission_facts_carrier_module_id",
            "admission_facts_targets",
        ]
    );
}

#[test]
fn connection_file_path_uses_xdg_runtime_dir_when_set() {
    assert_eq!(
        connection_file_path(false, &some("/tmp/xdg-runtime"), &some("/home/user"), "/tmp", "1000"),
        "/tmp/xdg-runtime/subc-connection.json"
    );
}

#[test]
fn connection_file_path_source_is_xdg_runtime_dir_when_set() {
    let (path, source) =
        connection_file_path_with_source(false, &some("/run/user/1000"), &None, "/tmp", "1000");
    assert_eq!(path, "/run/user/1000/subc-connection.json");
    assert_eq!(source, ConnectionFileSource::XdgRuntimeDir);
}

#[test]
fn connection_file_path_source_is_prod_data_home_when_xdg_unset_and_home_set() {
    let (path, source) =
        connection_file_path_with_source(false, &None, &some("/home/user"), "/tmp", "1000");
    assert_eq!(path, "/home/user/.local/share/cortexkit/run/subc-connection.json");
    assert_eq!(source, ConnectionFileSource::ProdDataHome);
}

#[test]
fn connection_file_path_prefers_xdg_runtime_dir_over_home() {
    let (path, source) = connection_file_path_with_source(
        false,
        &some("/run/user/1000"),
        &some("/home/user"),
        "/tmp",
        "1000",
    );
    assert_eq!(path, "/run/user/1000/subc-connection.json");
    assert_eq!(source, ConnectionFileSource::XdgRuntimeDir);
}

#[test]
fn connection_file_path_uses_home_when_xdg_unset() {
    assert_eq!(
        connection_file_path(false, &None, &some("/home/other"), "/tmp", "1000"),
        "/home/other/.local/share/cortexkit/run/subc-connection.json"
    );
}

#[test]
fn connection_file_path_falls_back_to_temp_dir_with_user_token_when_xdg_and_home_unset() {
    assert_eq!(
        connection_file_path(false, &None, &None, "/tmp", "1000"),
        "/tmp/subc-1000.connection.json"
    );
}

#[test]
fn connection_file_path_source_is_temp_dir_when_xdg_and_home_unset() {
    let (path, source) = connection_file_path_with_source(false, &None, &None, "/tmp", "1000");
    assert_eq!(path, "/tmp/subc-1000.connection.json");
    assert_eq!(source, ConnectionFileSource::TempDirFallback);
}

#[test]
fn connection_file_path_source_is_temp_dir_when_xdg_empty() {
    let (path, source) = connection_file_path_with_source(false, &some(""), &None, "/tmp", "1000");
    assert_eq!(path, "/tmp/subc-1000.connection.json");
    assert_eq!(source, ConnectionFileSource::TempDirFallback);
}

#[test]
fn connection_file_path_source_is_temp_dir_when_xdg_and_home_empty() {
    let (path, source) = connection_file_path_with_source(false, &some(""), &some(""), "/tmp", "1000");
    assert_eq!(path, "/tmp/subc-1000.connection.json");
    assert_eq!(source, ConnectionFileSource::TempDirFallback);
}

#[test]
fn a_connection_file_of_windows_is_joined_as_windows_joins() {
    assert_eq!(
        connection_file_path(true, &None, &some("C:\\Users\\u"), "C:\\tmp", "u"),
        "C:\\Users\\u\\.local\\share\\cortexkit\\run\\subc-connection.json"
    );
    assert_eq!(
        connection_file_path(true, &some("C:\\run/"), &None, "C:\\tmp", "u"),
        "C:\\run/subc-connection.json"
    );
    assert_eq!(
        connection_file_path(true, &None, &None, "C:\\tmp", "u"),
        "C:\\tmp\\subc-u.connection.json"
    );
}

#[test]
fn a_source_has_a_name_and_a_reason() {
    assert_eq!(ConnectionFileSource::Explicit.to_text(), "explicit");
    assert_eq!(ConnectionFileSource::Explicit.reason(), "configured path");
    assert_eq!(ConnectionFileSource::XdgRuntimeDir.to_text(), "xdg_runtime_dir");
    assert_eq!(
        ConnectionFileSource::TempDirFallback.reason(),
        "XDG_RUNTIME_DIR and HOME unset or empty"
    );
}

#[test]
fn daemon_binary_config_journals_and_captures_into_the_run_dir() {
    let run_dir = daemon_run_dir(&unix_data(some("/root/data"), None));
    let config = Config::from_env_for_daemon_binary(from_env(Ok(None), None), run_dir, "/root/data", false)
        .unwrap();
    assert_eq!(
        config.terminal_journal_path,
        some("/root/data/cortexkit/run/terminals.jsonl")
    );
    assert_eq!(config.capture_logs_dir, some("/root/data/cortexkit/run/logs"));
    assert_eq!(config.live_children_path, some("/root/data/cortexkit/run/live-children.json"));
    assert_eq!(config.machine_id_path, some("/root/data/cortexkit/machine-id"));
    let inside: Config =
        BootstrapConfig::new("/root/connection.json".to_string(), 0, "1".to_string());
    assert_eq!(inside.terminal_journal_path, None);
    assert_eq!(inside.capture_logs_dir, None);
}

#[test]
fn daemon_binary_config_refuses_a_relative_data_home() {
    let run_dir = daemon_run_dir(&unix_data(some("relative-data-home"), None));
    let error =
        Config::from_env_for_daemon_binary(from_env(Ok(None), None), run_dir, "relative-data-home", false)
            .expect_err("a relative data home must refuse the daemon binary's config");
    assert!(matches!(error, BootstrapError::RunDir(_)));
    assert!(error.to_text().contains("XDG_DATA_HOME"));
    assert!(error.to_text().starts_with("refusing to start: "));
}

#[test]
fn configured_port_uses_default_config_and_env_override() {
    assert_eq!(from_env(Ok(None), None).unwrap().port, DEFAULT_SUBC_PORT);
    assert_eq!(from_env(Ok(Some(file(Some(8123), Vec::new()))), None).unwrap().port, 8123);
    assert_eq!(from_env(Ok(Some(file(Some(8123), Vec::new()))), Some("9012")).unwrap().port, 9012);
}

#[test]
fn a_port_that_is_not_blank_is_never_passed_over() {
    assert_eq!(choose_port(&some("   "), Some(7)).unwrap(), 7);
    assert_eq!(choose_port(&some("+80"), None).unwrap(), 80);
    assert_eq!(choose_port(&some("65535"), None).unwrap(), 65535);
    for bad in ["65536", "-1", "x", " 80", "80 ", "+", "1_0"] {
        let error = choose_port(&some(bad), Some(7)).unwrap_err();
        match &error {
            BootstrapError::InvalidPort { raw, .. } => assert_eq!(raw, bad),
            other => panic!("{other:?}"),
        }
        assert!(error.to_text().starts_with(&format!("invalid SUBC_PORT value '{bad}': ")));
    }
    assert_eq!(
        choose_port(&some("70000"), None).unwrap_err().to_text(),
        "invalid SUBC_PORT value '70000': number too large to fit in target type"
    );
}

#[test]
fn the_modules_are_put_in_the_order_of_their_ids() {
    let config: Config = BootstrapConfig::new("/c".to_string(), 0, "1".to_string())
        .with_configured_modules(vec![
            module("b", "first-b", None),
            module("c", "c", None),
            module("a", "a", None),
            module("b", "second-b", None),
        ]);
    let programs: Vec<&str> =
        config.configured_modules.iter().map(|m| m.program.as_str()).collect();
    assert_eq!(programs, ["a", "first-b", "second-b", "c"]);
}

#[test]
fn a_file_replaces_what_a_file_said_before() {
    let config = from_env(Ok(Some(file(Some(1), vec![module("m", "p", None)]))), None).unwrap();
    assert_eq!(config.configured_port, Some(1));
    assert_eq!(config.route_bind_relay_default_ms, Some(30_000));
    assert_eq!(config.daemon_config_path, some("/etc/subc.jsonc"));
    let config = config.with_daemon_config_path("/other", Ok(None)).unwrap();
    assert!(config.configured_modules.is_empty());
    assert!(config.storage_config.is_none());
    assert!(config.reserved_capabilities.is_empty());
    assert_eq!(config.configured_port, None);
    assert_eq!(config.port, 1);
    assert_eq!(config.daemon_config_path, some("/other"));
    let error = config
        .with_daemon_config_path(
            "/other",
            Err(DaemonConfigError::InvalidJson { path: "p".to_string(), source: "s".to_string() }),
        )
        .unwrap_err();
    assert_eq!(error.to_text(), "failed to load daemon config: invalid daemon config p: s");
}

#[test]
fn the_remaining_builders_set_what_they_name() {
    let config: Config = BootstrapConfig::new("/c".to_string(), 0, "1".to_string())
        .with_cgroup_placement(CgroupPlacementConfig::Root("/cg".to_string()))
        .with_watchdog_config(9)
        .with_storage_config(Some(StorageConfig::Sqlite { data_home: "/d".to_string() }))
        .with_admission_facts_config(some("c"), Some(vec!["t".to_string()]))
        .with_route_bind_relay_default_ms(Some(5))
        .with_reserved_capabilities(vec![("a/v1".to_string(), "m".to_string())]);
    assert!(matches!(&config.cgroup_placement, CgroupPlacementConfig::Root(root) if root == "/cg"));
    assert_eq!(config.watchdog_config, Some(9));
    assert_eq!(config.admission_facts_carrier_module_id, some("c"));
    assert_eq!(config.route_bind_relay_default_ms, Some(5));
    assert_eq!(config.reserved_capabilities.len(), 1);
    assert_eq!(config.connection_file_source, ConnectionFileSource::Explicit);
}

fn finding(loopback: Option<bool>, connected: bool, authenticated: bool) -> EndpointFinding {
    EndpointFinding { loopback, connected, authenticated }
}

#[test]
fn only_an_authenticated_loopback_peer_is_a_running_daemon() {
    assert_eq!(probe_endpoint(finding(Some(true), true, true)), Probe::Live);
    assert_eq!(probe_endpoint(finding(Some(false), true, true)), Probe::StaleOrAbsent);
    assert_eq!(probe_endpoint(finding(None, true, true)), Probe::StaleOrAbsent);
    assert_eq!(probe_endpoint(finding(Some(true), false, true)), Probe::StaleOrAbsent);
    assert_eq!(probe_endpoint(finding(Some(true), true, false)), Probe::StaleOrAbsent);
}

#[test]
fn one_live_address_is_enough_and_a_broken_file_tells_of_none() {
    let path = "/run/c.json".to_string();
    let findings = vec![finding(Some(true), false, false), finding(Some(true), true, true)];
    assert_eq!(probe_existing(&path, Ok(findings)).unwrap(), Probe::Live);
    assert_eq!(probe_existing(&path, Ok(Vec::new())).unwrap(), Probe::StaleOrAbsent);
    for fault in [
        ConnectionFileFault::NotFound,
        ConnectionFileFault::JsonRead,
        ConnectionFileFault::UnsupportedSchema,
        ConnectionFileFault::Invalid,
        ConnectionFileFault::KeyTooShort,
        ConnectionFileFault::InsecurePermissions,
    ] {
        assert!(is_absent_or_stale_connection_file(fault));
        assert_eq!(
            probe_existing(&path, Err(file_error(fault))).unwrap(),
            Probe::StaleOrAbsent
        );
    }
    for fault in [
        ConnectionFileFault::Io,
        ConnectionFileFault::MissingParent,
        ConnectionFileFault::MissingFileName,
        ConnectionFileFault::InsecureParentDirectory,
        ConnectionFileFault::JsonWrite,
        ConnectionFileFault::Random,
        ConnectionFileFault::WireVersionMismatch,
    ] {
        assert!(!is_absent_or_stale_connection_file(fault));
        assert_eq!(
            probe_existing(&path, Err(file_error(fault))).unwrap_err().to_text(),
            "failed to read connection file /run/c.json: broken"
        );
    }
}

fn claim() -> SingletonClaim {
    SingletonClaim::new("/run/c.json".to_string())
}

fn stale() -> StageEvent {
    StageEvent::Probed(Ok(Probe::StaleOrAbsent))
}

#[test]
fn a_running_daemon_is_deferred_to_before_and_after_the_lock() {
    let first = claim().advance(StageEvent::Probed(Ok(Probe::Live)));
    assert!(matches!(first.stage, Stage::AlreadyRunning));
    let second = claim()
        .advance(stale())
        .advance(StageEvent::Locked(Ok(())))
        .advance(StageEvent::Probed(Ok(Probe::Live)));
    assert!(matches!(second.stage, Stage::AlreadyRunning));
}

fn probed(findings: Result<Vec<EndpointFinding>, ConnectionFileError>) -> Stage {
    let found = probe_existing(&"/run/c.json".to_string(), findings);
    claim().advance(StageEvent::Probed(found)).stage
}

#[test]
fn second_singleton_probe_against_served_tcp_daemon_reports_already_running() {
    assert!(matches!(probed(Ok(vec![finding(Some(true), true, true)])), Stage::AlreadyRunning));
}

#[test]
fn stale_unbound_connection_file_is_reclaimed() {
    assert!(matches!(probed(Ok(vec![finding(Some(true), false, false)])), Stage::Locking));
}

#[test]
fn ensure_singleton_reclaims_insecure_connection_file() {
    assert!(matches!(
        probed(Err(file_error(ConnectionFileFault::InsecurePermissions))),
        Stage::Locking
    ));
}

#[test]
fn ensure_singleton_reclaims_non_loopback_connection_file() {
    assert!(matches!(probed(Ok(vec![finding(Some(false), true, true)])), Stage::Locking));
}

#[test]
fn ensure_singleton_reclaims_invalid_connection_file_shapes() {
    for fault in [
        ConnectionFileFault::UnsupportedSchema,
        ConnectionFileFault::Invalid,
        ConnectionFileFault::KeyTooShort,
        ConnectionFileFault::JsonRead,
    ] {
        assert!(matches!(probed(Err(file_error(fault))), Stage::Locking), "{fault:?}");
    }
}

#[test]
fn foreign_reused_port_connection_file_is_reclaimed_after_auth_probe_fails() {
    assert!(matches!(probed(Ok(vec![finding(Some(true), true, false)])), Stage::Locking));
}

#[test]
fn a_stale_place_is_claimed_step_by_step() {
    let claim = claim().advance(stale());
    assert!(matches!(claim.stage, Stage::Locking));
    let claim = claim.advance(StageEvent::Locked(Ok(())));
    assert!(matches!(claim.stage, Stage::Reprobing));
    let claim = claim.advance(stale());
    assert!(matches!(claim.stage, Stage::Removing));
    let claim = claim.advance(StageEvent::Removed(Err(io(IoKind::NotFound, "gone"))));
    assert!(matches!(claim.stage, Stage::Identifying));
    let claim = claim.advance(StageEvent::Identified(Ok(())));
    assert!(matches!(claim.stage, Stage::Binding));
    let claim = claim.advance(StageEvent::Listening(Ok(())));
    assert!(matches!(claim.stage, Stage::Publishing));
    let claim = claim.advance(StageEvent::Published(Ok(())));
    assert!(matches!(claim.stage, Stage::Bound));
}

fn failure(claim: SingletonClaim) -> String {
    match claim.stage {
        Stage::Failed(error) => error.to_text(),
        other => panic!("{other:?}"),
    }
}

#[test]
fn every_step_of_a_claim_can_fail() {
    let locked = || claim().advance(stale()).advance(StageEvent::Locked(Ok(()))).advance(stale());
    assert_eq!(
        failure(locked().advance(StageEvent::Removed(Err(io(IoKind::Other, "denied"))))),
        "failed to remove stale connection file /run/c.json: denied"
    );
    let removed = || locked().advance(StageEvent::Removed(Ok(())));
    assert_eq!(
        failure(removed().advance(StageEvent::Identified(Err("corrupt".to_string())))),
        "refusing to start: corrupt"
    );
    let listening =
        || removed().advance(StageEvent::Identified(Ok(()))).advance(StageEvent::Listening(Ok(())));
    assert_eq!(
        failure(
            listening().advance(StageEvent::Published(Err(file_error(ConnectionFileFault::Io))))
        ),
        "failed to publish connection file /run/c.json: broken"
    );
    assert_eq!(
        failure(claim().advance(StageEvent::Probed(Err(BootstrapError::Signal("s".to_string()))))),
        "failed to register SIGTERM handler: s"
    );
}

#[test]
fn an_event_out_of_turn_changes_nothing() {
    let claim = claim().advance(StageEvent::Published(Ok(()))).advance(StageEvent::Removed(Ok(())));
    assert!(matches!(claim.stage, Stage::Probing));
}

#[test]
fn held_start_lock_blocks_second_acquire_until_release() {
    let path = "/run/c.json.start-lock".to_string();
    assert!(matches!(start_lock_step(&path, 1, LockTry::Locked), LockStep::Held));
    for tries in 1..START_LOCK_RETRIES {
        assert!(matches!(start_lock_step(&path, tries, LockTry::WouldBlock), LockStep::Again(25)));
    }
    match start_lock_step(&path, START_LOCK_RETRIES, LockTry::WouldBlock) {
        LockStep::Failed(error) => assert_eq!(
            error.to_text(),
            "start lock /run/c.json.start-lock remained busy after 40 attempts"
        ),
        other => panic!("{other:?}"),
    }
    match start_lock_step(&path, 1, LockTry::Failed(io(IoKind::Other, "no"))) {
        LockStep::Failed(error) => assert_eq!(
            error.to_text(),
            "failed to create start lock /run/c.json.start-lock: no"
        ),
        other => panic!("{other:?}"),
    }
}

#[test]
fn the_start_lock_stands_beside_the_connection_file() {
    assert_eq!(start_lock_path(false, "/run/user/c.json"), "/run/user/c.json.start-lock");
    assert_eq!(start_lock_path(false, "c.json"), "./c.json.start-lock");
    assert_eq!(start_lock_path(false, "/"), "./subc-connection.json.start-lock");
    assert_eq!(start_lock_path(false, "/c.json"), "/c.json.start-lock");
    assert_eq!(start_lock_directory(false, "/run/user/c.json"), some("/run/user"));
    assert_eq!(start_lock_directory(false, "c.json"), None);
    assert_eq!(start_lock_path(false, "/run/.//c.json/"), "/run/c.json.start-lock");
    assert_eq!(start_lock_path(false, "run/.."), "run/subc-connection.json.start-lock");

    assert_eq!(start_lock_path(true, "C:\\run\\c.json"), "C:\\run\\c.json.start-lock");
    assert_eq!(start_lock_directory(true, "C:\\run\\c.json"), some("C:\\run"));
    assert_eq!(start_lock_path(true, "C:c.json"), "C:c.json.start-lock");
    assert_eq!(start_lock_path(true, "c.json"), ".\\c.json.start-lock");
    assert_eq!(start_lock_directory(true, "C:\\c.json"), some("C:\\"));
}

#[test]
fn the_daemon_listens_on_both_loopback_addresses_of_one_port() {
    assert_eq!(first_listener(0, Ok(()), Ok(4321)).unwrap(), 4321);
    let endpoints = bind_loopback(4321, Ok(())).unwrap();
    let pairs: Vec<(&str, u16)> = endpoints.iter().map(|e| (e.host.as_str(), e.port)).collect();
    assert_eq!(pairs, [("127.0.0.1", 4321), ("::1", 4321)]);
    let alone = bind_loopback(4321, Err(io(IoKind::AddrNotAvailable, "none"))).unwrap();
    assert_eq!(alone.len(), 1);
}

#[test]
fn bind_conflict_on_fixed_port_fails_loud_without_reselecting() {
    let error = first_listener(8757, Err(io(IoKind::AddrInUse, "in use")), Ok(1)).unwrap_err();
    assert_eq!(
        error.to_text(),
        "port 8757 in use on loopback 127.0.0.1: in use; set the port in config"
    );
    let error = bind_loopback(8757, Err(io(IoKind::Other, "denied"))).unwrap_err();
    assert_eq!(error.to_text(), "failed to bind loopback TCP ::1:8757: denied");
    let error = first_listener(0, Ok(()), Err(io(IoKind::Other, "lost"))).unwrap_err();
    assert_eq!(error.to_text(), "failed to read local address for 127.0.0.1: lost");
}

#[test]
fn a_machine_without_version_6_is_known_by_kind_or_number() {
    assert!(ipv6_loopback_unavailable(&io(IoKind::Unsupported, "")));
    for number in [47, 49, 97] {
        let mut error = io(IoKind::Other, "");
        error.raw_os_error = Some(number);
        assert!(ipv6_loopback_unavailable(&error));
    }
    let mut error = io(IoKind::AddrInUse, "");
    error.raw_os_error = Some(98);
    assert!(!ipv6_loopback_unavailable(&error));
}

#[test]
fn daemon_connection_file_publishes_protocol_wire_version() {
    let info = connection_info(1, Vec::new(), vec![0; 32], [7; 16], 42, "1.2.3".to_string());
    assert_eq!(info.wire_version, Some(PROTOCOL_VERSION));
    assert_eq!(info.pid, 42);
}

#[test]
fn an_incarnation_is_the_id_in_hexadecimal() {
    let mut id = [0u8; 16];
    id[0] = 0xab;
    id[15] = 0x0f;
    assert_eq!(daemon_incarnation(&id), "ab00000000000000000000000000000f");
    assert_eq!(daemon_incarnation(&id), format!("{:032x}", u128::from_be_bytes(id)));
}

#[test]
fn the_open_file_limit_is_raised_as_far_as_it_goes() {
    assert_eq!(nofile_raise(65536, 70000), None);
    assert_eq!(nofile_raise(256, 70000), Some(65536));
    assert_eq!(nofile_raise(256, 4096), Some(4096));
    assert_eq!(maxstdio_raise(512), Some(8192));
    assert_eq!(maxstdio_raise(8192), None);
}

fn process() -> ProcessFacts {
    ProcessFacts {
        windows: false,
        pid: 7,
        started_at_ms: 8,
        executable_path: some("/bin/subc"),
        build_git_sha: None,
        build_lock_digest: None,
    }
}

#[test]
fn a_bind_takes_the_nearest_budget() {
    let modules = vec![module("own", "p", Some(5_000)), module("plain", "p", None)];
    let config = from_env(Ok(Some(file(None, modules))), None).unwrap();
    let handler = control_handler(config, process());
    assert_eq!(handler.route_bind_relay_timeout_for("own"), Span::from_millis(5_000));
    assert_eq!(handler.route_bind_relay_timeout_for("plain"), Span::from_millis(30_000));
    assert_eq!(handler.daemon_provenance.pid, Some(7));
    let context = handler.rescan.as_ref().unwrap();
    assert_eq!(context.config_path, "/etc/subc.jsonc");
    assert_eq!(context.admission_facts_carrier_module_id, some("fed"));
    assert_eq!(
        handler.capability_modules,
        [("own".to_string(), true), ("plain".to_string(), true)]
    );

    let bare: Config = BootstrapConfig::new("/c".to_string(), 0, "1".to_string());
    let handler = control_handler(bare, process());
    assert_eq!(handler.route_bind_relay_timeout_for("any"), Span::from_secs(12));
    assert!(handler.rescan.is_none());
    assert_eq!(handler.route_bind_breaker.threshold, 3);
    assert_eq!(handler.route_bind_breaker.cooldown, Span::from_secs(20));
    assert_eq!(handler.health_probe_timeout, Span::from_secs(5));
    assert_eq!(handler.subc_capabilities.len(), 5);
}

#[test]
fn a_relaxed_threshold_is_told_with_its_tolerance() {
    let mut relaxed = health();
    relaxed.failure_threshold = 8;
    assert_eq!(relaxed_tolerance_secs(true, &relaxed, 3), Some(240));
    assert_eq!(relaxed_tolerance_secs(false, &relaxed, 3), None);
    assert_eq!(relaxed_tolerance_secs(true, &health(), 3), None);
}

#[test]
fn cgroups_are_prepared_only_where_that_is_asked_and_allowed() {
    assert_eq!(prepare_cgroup_placement(&CgroupPlacementConfig::Disabled, Ok(Some(1))), None);
    assert_eq!(prepare_cgroup_placement(&CgroupPlacementConfig::Current, Ok(Some(1))), Some(1));
    assert_eq!(prepare_cgroup_placement::<u8>(&CgroupPlacementConfig::Current, Ok(None)), None);
    assert_eq!(
        prepare_cgroup_placement::<u8>(
            &CgroupPlacementConfig::Root("/cg".to_string()),
            Err("no".to_string())
        ),
        None
    );
}

#[test]
fn orphans_are_swept_before_anything_is_started() {
    let modules = vec![module("one", "/bin/one", None), module("two", "/bin/two", None)];
    let steps = serve_steps(&some("/run/live-children.json"), &modules);
    assert!(matches!(&steps[0], ServeStep::HandleTermination));
    assert!(matches!(&steps[1], ServeStep::RaiseOpenFiles));
    assert!(matches!(&steps[2], ServeStep::SweepOrphans { path } if path == "/run/live-children.json"));
    assert!(matches!(&steps[3], ServeStep::ServeListeners));
    assert!(matches!(&steps[4], ServeStep::WatchClock));
    assert!(matches!(&steps[5], ServeStep::StartWatchdog));
    assert!(matches!(&steps[6], ServeStep::Supervise { spec, .. } if spec.module_id == "one"));
    assert!(matches!(&steps[7], ServeStep::Supervise { spec, .. } if spec.module_id == "two"));
    assert!(matches!(&steps[8], ServeStep::RefreshCapabilities));
    assert!(matches!(&steps[9], ServeStep::WatchDeadlines));
    assert_eq!(steps.len(), 10);
    assert_eq!(serve_steps(&None, &Vec::new()).len(), 7);
}

#[test]
fn every_module_is_started_as_it_is_configured() {
    let mut second = module("second", "/bin/second", None);
    second.enabled = false;
    second.drain_timeout_ms = Some(9);
    second.health.failure_threshold = 11;
    second.restart.max_restarts = 13;
    second.args = vec!["--x".to_string()];
    let steps = serve_steps(&None, &vec![module("first", "/bin/first", None), second]);
    match &steps[6] {
        ServeStep::Supervise { spec, enabled, health, drain_timeout_ms, restart } => {
            assert_eq!(spec.module_id, "second");
            assert_eq!(spec.program, "/bin/second");
            assert_eq!(spec.args, ["--x"]);
            assert!(!enabled);
            assert_eq!(health.failure_threshold, 11);
            assert_eq!(*drain_timeout_ms, Some(9));
            assert_eq!(restart.max_restarts, 13);
        }
        other => panic!("{other:?}"),
    }
}

#[test]
fn a_module_that_cannot_be_started_stops_no_other() {
    let steps = serve_steps(&None, &vec![module("one", "p", None), module("two", "p", None)]);
    let failed = || Err("no such program".to_string());
    assert!(matches!(serve_next(&steps, 5, failed()), ServeNext::Take(6)));
    assert!(matches!(serve_next(&steps, 5, Ok(())), ServeNext::Take(6)));
    assert!(matches!(serve_next(&steps, 6, failed()), ServeNext::Take(7)));
    assert!(matches!(serve_next(&steps, steps.len() - 1, Ok(())), ServeNext::Run));
    match serve_next(&steps, 0, failed()) {
        ServeNext::Failed(BootstrapError::Signal(text)) => assert_eq!(text, "no such program"),
        other => panic!("{other:?}"),
    }
    assert!(matches!(serve_next(&steps, 0, Ok(())), ServeNext::Take(1)));
}

#[test]
fn the_supervisor_keeps_only_the_records_that_are_named() {
    let inside: Config = BootstrapConfig::new("/c.json".to_string(), 0, "1".to_string());
    let setup = supervisor_setup(&inside, "00ff");
    assert_eq!(setup.connection_file_path, "/c.json");
    assert_eq!(setup.incarnation, "00ff");
    assert_eq!(setup.capture_logs_dir, None);
    assert!(setup.journal.is_none());
    assert_eq!(setup.live_children_record, None);

    let run_dir = daemon_run_dir(&unix_data(some("/d"), None));
    let own = Config::from_env_for_daemon_binary(from_env(Ok(None), None), run_dir, "/d", false).unwrap();
    let setup = supervisor_setup(&own, "00ff");
    assert_eq!(setup.capture_logs_dir, some("/d/cortexkit/run/logs"));
    assert_eq!(setup.live_children_record, some("/d/cortexkit/run/live-children.json"));
    let journal = setup.journal.expect("a journal");
    assert_eq!(journal.path, "/d/cortexkit/run/terminals.jsonl");
    assert_eq!(journal.incarnation, "00ff");
}

#[test]
fn a_terminated_daemon_drains_and_then_ends_its_modules() {
    let (state, actions) = run_next(Running::Serving, RunEvent::Terminate);
    assert_eq!(
        actions,
        [
            RunAction::BeginShutdown,
            RunAction::StopWatchdog,
            RunAction::CloseListeners,
            RunAction::Drain,
        ]
    );
    let (state, actions) = run_next(state, RunEvent::Drained);
    assert_eq!(actions, [RunAction::EndChildren { at_once: false }]);
    let (state, actions) = run_next(state, RunEvent::ChildrenEnded);
    assert!(actions.is_empty());
    assert!(matches!(state, Running::Ended(Ok(()))));
}

#[test]
fn a_second_signal_cuts_the_drain_short() {
    let (state, _) = run_next(Running::Serving, RunEvent::Terminate);
    let (state, actions) = run_next(state, RunEvent::Terminate);
    assert_eq!(actions, [RunAction::EndChildren { at_once: true }]);
    assert!(matches!(state, Running::EndingChildren { at_once: true }));
}

#[test]
fn a_server_that_ends_by_itself_ends_the_daemon() {
    let error = BootstrapError::Serve("lost".to_string());
    let (state, actions) = run_next(Running::Serving, RunEvent::ServerEnded(Err(error)));
    assert!(actions.is_empty());
    match state {
        Running::Ended(Err(error)) => assert_eq!(error.to_text(), "daemon server failed: lost"),
        other => panic!("{other:?}"),
    }
    assert_eq!(
        BootstrapError::ServeJoin("x".to_string()).to_text(),
        "daemon server task failed: x"
    );
    assert_eq!(
        BootstrapError::GenerateConnectionFile(file_error(ConnectionFileFault::Random)).to_text(),
        "failed to generate connection-file auth material: broken"
    );
}
