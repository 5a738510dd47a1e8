use serde_json::Value;
use subc_daemon::daemon_config::document::{
    load, load_logging, parse_doc, ConfigDefaults, ConfigDocument, DaemonConfig, DaemonConfigError,
    RawDaemonConfig, RawModuleConfig, RawStorageConfig,
};
use subc_daemon::daemon_config::logging::{LoggingDefaults, RawLoggingConfig, Retention};
use subc_daemon::daemon_config::module::ConfiguredModule;
use subc_daemon::daemon_config::policy::{
    HealthAction, HealthConfig, RawHealthConfig, RawRestartConfig, RestartPolicy,
};
use subc_daemon::daemon_config::validate::RawReservedCapability;
use subc_daemon::daemon_config::{ModuleProtocol, StorageConfig};
use subc_daemon::paths::{
    daemon_run_dir, default_config_home, default_config_path, default_data_home,
    ensure_daemon_run_dir_private, ensure_directory_private, file_name, is_absolute, parent,
    same_path, DirectoryStep, HomeVariables,
};
use subc_daemon::span::Span;

const DEFAULT_ALARM_MB: u32 = 512;

fn logging_defaults() -> LoggingDefaults {
    LoggingDefaults {
        retention: Retention { max_file_mb: 20, keep: 5, max_age_days: 14 },
        alarm_segment_mb: DEFAULT_ALARM_MB,
    }
}

fn default_health() -> HealthConfig {
    HealthConfig {
        cadence: Span::from_secs(30),
        deadline: Span::from_secs(5),
        failure_threshold: 3,
        on_degraded: HealthAction::Report,
        on_failing: HealthAction::Report,
        critical: false,
    }
}

fn defaults_at(data_home: &str) -> ConfigDefaults {
    ConfigDefaults {
        logging: logging_defaults(),
        health: default_health(),
        windows: false,
        data_home: data_home.to_string(),
    }
}

fn hazard(id: &str) -> Option<String> {
    if id.contains('/') || id == ".." {
        Some("contains a path separator".to_string())
    } else {
        None
    }
}

fn valid_capability(name: &str) -> bool {
    match name.split_once("/v") {
        Some((head, version)) => {
            !head.is_empty()
                && head.chars().all(|c| c.is_ascii_lowercase() || c == '-')
                && version.parse::<u32>().is_ok()
        }
        None => false,
    }
}

fn text(value: &Value, key: &str) -> Option<String> {
    value.get(key).and_then(Value::as_str).map(str::to_string)
}

fn number(value: &Value, key: &str) -> Option<u64> {
    value.get(key).and_then(Value::as_u64)
}

fn flag(value: &Value, key: &str, default: bool) -> bool {
    value.get(key).and_then(Value::as_bool).unwrap_or(default)
}

fn strings(value: &Value, key: &str) -> Option<Vec<String>> {
    value.get(key).and_then(Value::as_array).map(|list| {
        list.iter().map(|item| item.as_str().expect("string").to_string()).collect()
    })
}

fn string_map(value: &Value, key: &str) -> Vec<(String, String)> {
    let mut pairs: Vec<(String, String)> = match value.get(key).and_then(Value::as_object) {
        Some(map) => map
            .iter()
            .map(|(k, v)| (k.clone(), v.as_str().expect("string").to_string()))
            .collect(),
        None => Vec::new(),
    };
    pairs.sort();
    pairs
}

fn action(value: &Value, key: &str) -> Result<Option<HealthAction>, String> {
    match text(value, key).as_deref() {
        None => Ok(None),
        Some("report") => Ok(Some(HealthAction::Report)),
        Some("restart") => Ok(Some(HealthAction::Restart)),
        Some("alert") => Ok(Some(HealthAction::Alert)),
        Some(other) => Err(format!("unknown variant `{other}`")),
    }
}

fn raw_log(value: &Value) -> Option<RawLoggingConfig> {
    value.get("log").map(|log| RawLoggingConfig {
        level: text(log, "level"),
        tags: string_map(log, "tags"),
        alarm_segment_mb: number(log, "alarm_segment_mb").map(|n| n as u32),
        max_file_mb: number(log, "max_file_mb").map(|n| n as u32),
        keep: number(log, "keep").map(|n| n as u8),
        max_age_days: number(log, "max_age_days").map(|n| n as u32),
    })
}

fn raw_module(id: &str, module: &Value) -> Result<RawModuleConfig, String> {
    let health = match module.get("health") {
        None => None,
        Some(health) => Some(RawHealthConfig {
            cadence_ms: number(health, "cadence_ms"),
            deadline_ms: number(health, "deadline_ms"),
            failure_threshold: number(health, "failure_threshold").map(|n| n as u32),
            on_degraded: action(health, "on_degraded")?,
            on_failing: action(health, "on_failing")?,
            critical: flag(health, "critical", false),
        }),
    };
    Ok(RawModuleConfig {
        module_id: id.to_string(),
        path_hazard: hazard(id),
        program: text(module, "program").expect("program"),
        args: strings(module, "args").unwrap_or_default(),
        env: string_map(module, "env"),
        log: raw_log(module),
        enabled: flag(module, "enabled", true),
        reserved: flag(module, "reserved", false),
        reserved_prefixes: strings(module, "reserved_prefixes").unwrap_or_default(),
        protocol: text(module, "protocol"),
        health,
        drain_timeout_ms: number(module, "drain_timeout_ms"),
        route_bind_relay_timeout_ms: number(module, "route_bind_relay_timeout_ms"),
        restart: module.get("restart").map(|restart| RawRestartConfig {
            max_restarts: number(restart, "max_restarts").map(|n| n as u32),
            window_secs: number(restart, "window_secs"),
            backoff_ms: number(restart, "backoff_ms"),
            max_backoff_ms: number(restart, "max_backoff_ms"),
        }),
    })
}

fn raw_config(doc: &str) -> Result<RawDaemonConfig, String> {
    let value: Value = serde_json::from_str(doc).expect("json");
    let mut modules = Vec::new();
    if let Some(map) = value.get("modules").and_then(Value::as_object) {
        let mut ids: Vec<&String> = map.keys().collect();
        ids.sort();
        for id in ids {
            modules.push(raw_module(id, &map[id])?);
        }
    }
    Ok(RawDaemonConfig {
        version: number(&value, "version").expect("version") as u32,
        port: number(&value, "port").map(|n| n as u16),
        drain_timeout_ms: number(&value, "drain_timeout_ms"),
        route_bind_relay_timeout_ms: number(&value, "route_bind_relay_timeout_ms"),
        log: raw_log(&value),
        modules,
        storage: value.get("storage").map(|storage| RawStorageConfig::Sqlite {
            data_home: text(storage, "data_home"),
        }),
        admission_facts_carrier_module_id: text(&value, "admission_facts_carrier_module_id"),
        admission_facts_targets: strings(&value, "admission_facts_targets"),
        reserved_capabilities: string_map(&value, "reserved_capabilities")
            .into_iter()
            .map(|(capability, module_id)| RawReservedCapability {
                valid_identifier: valid_capability(&capability),
                path_hazard: hazard(&module_id),
                capability,
                module_id,
            })
            .collect(),
    })
}

fn parse_at(doc: &str, path: &str, data_home: &str) -> Result<DaemonConfig, DaemonConfigError> {
    let document = match raw_config(doc) {
        Ok(raw) => ConfigDocument::Parsed(raw),
        Err(message) => ConfigDocument::NotJson(message),
    };
    load(path, document, &defaults_at(data_home)).map(|config| config.expect("config"))
}

fn parse(doc: &str) -> Result<DaemonConfig, DaemonConfigError> {
    parse_at(doc, "/tmp/subc.jsonc", "/data/home")
}

fn refusal(doc: &str) -> DaemonConfigError {
    parse(doc).expect_err("must refuse")
}

fn module<'a>(config: &'a DaemonConfig, id: &str) -> &'a ConfiguredModule {
    config.modules.iter().find(|m| m.module_id == id).expect("module")
}

fn invalid_message(error: &DaemonConfigError) -> String {
    match error {
        DaemonConfigError::InvalidValue { message, .. } => message.clone(),
        other => panic!("expected an invalid value, got {other:?}"),
    }
}

fn data_home(config: &DaemonConfig) -> Option<String> {
    match &config.storage {
        Some(StorageConfig::Sqlite { data_home }) => Some(data_home.clone()),
        None => None,
    }
}

fn some(value: &str) -> Option<String> {
    Some(value.to_string())
}

fn unix() -> HomeVariables {
    HomeVariables {
        windows: false,
        xdg_config_home: None,
        xdg_data_home: None,
        app_data: None,
        user_profile: None,
        home: None,
    }
}

fn unix_data(xdg: Option<String>, home: Option<String>) -> HomeVariables {
    HomeVariables { xdg_data_home: xdg, home, ..unix() }
}

fn unix_config(xdg: Option<String>, home: Option<String>) -> HomeVariables {
    HomeVariables { xdg_config_home: xdg, home, ..unix() }
}

#[test]
fn run_dir_is_created_private_and_an_inherited_wide_one_is_tightened() {
    assert_eq!(ensure_directory_private(None), DirectoryStep::Create { mode: 0o700 });
    assert_eq!(ensure_directory_private(Some(0o755)), DirectoryStep::Tighten { mode: 0o700 });
    assert_eq!(ensure_directory_private(Some(0o700)), DirectoryStep::Keep);
}

#[test]
fn default_data_home_matches_golden_fixture() {
    assert_eq!(default_data_home(&unix_data(some("/xdg/data"), some("/home/u"))), "/xdg/data");
    assert_eq!(default_data_home(&unix_data(some("rel/data"), some("/home/u"))), "rel/data");
    assert_eq!(default_data_home(&unix_data(some(""), some("/home/u"))), "/home/u/.local/share");
    assert_eq!(default_data_home(&unix_data(None, some("/home/u"))), "/home/u/.local/share");
    assert_eq!(default_data_home(&unix_data(None, some(""))), ".local/share");
    assert_eq!(default_data_home(&unix_data(None, None)), ".local/share");
}

#[test]
fn default_config_home_matches_golden_fixture() {
    assert_eq!(default_config_home(&unix_config(some("/xdg/config"), some("/home/u"))), "/xdg/config");
    assert_eq!(default_config_home(&unix_config(some("rel/config"), some("/home/u"))), "rel/config");
    assert_eq!(default_config_home(&unix_config(some(""), some("/home/u"))), "/home/u/.config");
    assert_eq!(default_config_home(&unix_config(None, some("/home/u"))), "/home/u/.config");
    assert_eq!(default_config_home(&unix_config(None, some(""))), ".config");
    assert_eq!(default_config_home(&unix_config(None, None)), ".config");
}

#[test]
fn the_config_file_stands_below_the_config_home() {
    assert_eq!(default_config_path(&unix_config(some("/xdg"), None)), "/xdg/cortexkit/subc.jsonc");
    assert_eq!(default_config_path(&unix_config(None, some("/home/u"))), "/home/u/.config/cortexkit/subc.jsonc");
}

fn windows() -> HomeVariables {
    HomeVariables { windows: true, ..unix() }
}

#[test]
fn windows_has_two_rungs_of_its_own() {
    let mut v = HomeVariables {
        xdg_data_home: some("D:\\data"),
        app_data: some("C:\\Users\\u\\AppData\\Roaming"),
        user_profile: some("C:\\Users\\u"),
        home: some("/home/u"),
        ..windows()
    };
    assert_eq!(default_data_home(&v), "D:\\data");
    assert_eq!(default_config_home(&v), "C:\\Users\\u\\AppData\\Roaming");
    v.xdg_data_home = some("");
    assert_eq!(default_data_home(&v), "C:\\Users\\u\\AppData\\Roaming");
    v.app_data = None;
    v.user_profile = some("C:\\Users\\other\\");
    assert_eq!(default_data_home(&v), "C:\\Users\\other\\AppData\\Roaming");
    assert_eq!(default_config_home(&v), "C:\\Users\\other\\AppData\\Roaming");
    v.user_profile = some("");
    assert_eq!(default_data_home(&v), "/home/u\\.local\\share");
    assert_eq!(default_config_home(&v), "/home/u\\.config");
    v.home = None;
    assert_eq!(default_data_home(&v), ".local\\share");
    assert_eq!(default_config_home(&v), ".config");
    v.home = some("C:");
    assert_eq!(default_config_home(&v), "C:.config");
}

#[test]
fn unix_takes_no_notice_of_what_only_windows_sets() {
    let v = HomeVariables {
        app_data: some("/roaming"),
        user_profile: some("/profile"),
        ..unix_data(None, some("/home/u"))
    };
    assert_eq!(default_data_home(&v), "/home/u/.local/share");
    assert_eq!(default_config_home(&v), "/home/u/.config");
    assert_eq!(default_config_path(&v), "/home/u/.config/cortexkit/subc.jsonc");
}

#[test]
fn both_homes_stop_at_one_rung() {
    let profile = HomeVariables { user_profile: some("C:\\u"), home: some("/h"), ..windows() };
    assert_eq!(default_data_home(&profile), default_config_home(&profile));
    let home = HomeVariables { home: some("/h"), ..unix() };
    assert_eq!(default_data_home(&home), "/h/.local/share");
    assert_eq!(default_config_home(&home), "/h/.config");
    assert_eq!(default_data_home(&unix()), ".local/share");
    assert_eq!(default_config_home(&unix()), ".config");
}

#[test]
fn an_absolute_path_starts_at_a_root() {
    assert!(is_absolute(false, "/data"));
    assert!(!is_absolute(false, "C:\\data"));
    assert!(!is_absolute(false, ""));
    assert!(is_absolute(true, "C:\\data"));
    assert!(is_absolute(true, "c:/data"));
    assert!(!is_absolute(true, "C:data"));
    assert!(!is_absolute(true, "/data"));
    assert!(!is_absolute(true, "\\data"));
    assert!(is_absolute(true, "\\\\server\\share\\x"));
    assert!(is_absolute(true, "\\\\server\\share"));
    assert!(!is_absolute(true, "\\\\server"));
    assert!(!is_absolute(true, "\\\\server\\"));
    let roaming = HomeVariables { app_data: some("C:\\r"), ..windows() };
    assert_eq!(daemon_run_dir(&roaming).expect("run dir"), "C:\\r\\cortexkit\\run");
}

#[test]
fn a_path_is_the_same_however_it_is_written() {
    for (a, b) in [
        ("/data", "/data"),
        ("/data", "/data/"),
        ("/data", "//data"),
        ("/data/x", "/data//x/."),
        ("/data/x", "/./data/./x"),
        ("./a", ".//a/"),
        ("a/b", "a/./b"),
        ("/", "//"),
    ] {
        assert!(same_path(false, a, b), "{a} {b}");
        assert_eq!(std::path::Path::new(a), std::path::Path::new(b));
    }
    for (a, b) in [
        ("/data", "data"),
        ("/data", "/dat"),
        ("/data", "/data/x"),
        ("./a", "a"),
        (".", ""),
        ("", "/"),
        ("/a/../b", "/b"),
    ] {
        assert!(!same_path(false, a, b), "{a} {b}");
        assert_ne!(std::path::Path::new(a), std::path::Path::new(b));
    }
}

#[test]
fn a_path_of_windows_is_the_same_however_it_is_written() {
    for (a, b) in [
        ("C:\\data", "c:/data/"),
        ("C:\\data\\x", "C:\\data\\.\\x"),
        ("\\\\server\\share\\x", "//server/share//x"),
        ("data\\x", "data/x"),
    ] {
        assert!(same_path(true, a, b), "{a} {b}");
    }
    for (a, b) in [
        ("C:\\data", "D:\\data"),
        ("C:\\data", "C:data"),
        ("C:\\data", "\\data"),
        ("C:\\data", "C:\\Data"),
        ("\\\\server\\share\\x", "\\\\server\\other\\x"),
        ("\\\\server\\share\\x", "\\\\other\\share\\x"),
    ] {
        assert!(!same_path(true, a, b), "{a} {b}");
    }
    assert!(!same_path(false, "a\\b", "a/b"));
}

#[test]
fn a_path_has_a_file_name_and_a_parent() {
    for path in [
        "/run/user/c.json", "c.json", "/c.json", "/", "", ".", "..", "./c", "a/..", "a/.", "a//b/",
        "/./a", "./.", "a/./b", "//a", "a/b/../c", "...", "/..",
    ] {
        let std_path = std::path::Path::new(path);
        let name = std_path.file_name().map(|name| name.to_str().expect("text").to_string());
        let dir = std_path.parent().map(|dir| dir.to_str().expect("text").to_string());
        assert_eq!(file_name(false, path), name, "{path}");
        assert_eq!(parent(false, path), dir, "{path}");
    }
    assert_eq!(file_name(true, "C:\\run\\c.json"), some("c.json"));
    assert_eq!(parent(true, "C:\\run\\c.json"), some("C:\\run"));
    assert_eq!(parent(true, "C:\\run"), some("C:\\"));
    assert_eq!(file_name(true, "C:run"), some("run"));
    assert_eq!(parent(true, "C:run"), some("C:"));
    assert_eq!(file_name(true, "C:"), None);
    assert_eq!(parent(true, "C:"), None);
    assert_eq!(parent(true, "C:\\"), None);
    assert_eq!(file_name(true, "\\\\server\\share\\c"), some("c"));
    assert_eq!(parent(true, "\\\\server\\share\\c"), some("\\\\server\\share\\"));
    assert_eq!(parent(true, "\\\\server\\share"), None);
    assert_eq!(file_name(false, "C:\\run"), some("C:\\run"));
}

#[test]
fn the_order_of_a_file_says_nothing() {
    let entry = |id: &str, program: &str| {
        let mut doc = r#"{ "version": 1, "modules": { "ID": { "program": "PROGRAM",
            "env": { "B": "1", "A": "2" } } } }"#
            .replace("ID", id);
        doc = doc.replace("PROGRAM", program);
        raw_config(&doc).unwrap().modules.remove(0)
    };
    let mut raw = raw_config(r#"{ "version": 1, "modules": {} }"#).unwrap();
    raw.modules =
        vec![entry("b", "first"), entry("c", "c"), entry("a", "a"), entry("b", "second")];
    raw.modules[1].env = vec![
        ("Z".to_string(), "1".to_string()),
        ("A".to_string(), "2".to_string()),
        ("Z".to_string(), "3".to_string()),
    ];
    let config = parse_doc(raw, &defaults_at("/d"), "p").expect("parse");
    let ids: Vec<&str> = config.modules.iter().map(|m| m.module_id.as_str()).collect();
    assert_eq!(ids, ["a", "b", "c"]);
    assert_eq!(config.modules[1].program, "second");
    assert_eq!(
        config.modules[2].env,
        [("A".to_string(), "2".to_string()), ("Z".to_string(), "3".to_string())]
    );
}

#[test]
fn the_run_dir_stands_below_an_absolute_data_home_only() {
    assert_eq!(daemon_run_dir(&unix_data(some("/data"), None)).expect("run dir"), "/data/cortexkit/run");
    let error = daemon_run_dir(&unix_data(some("relative"), None)).expect_err("relative");
    assert_eq!(error.path, "relative/cortexkit/run");
    assert_eq!(
        error.to_text(),
        "daemon run directory resolved to the relative path relative/cortexkit/run \
         (no absolute XDG_DATA_HOME or HOME in the daemon's environment)"
    );
    let plan = ensure_daemon_run_dir_private(&unix_data(some("/data"), None), Some(0o755)).expect("plan");
    assert_eq!(plan.path, "/data/cortexkit/run");
    assert_eq!(plan.step, DirectoryStep::Tighten { mode: 0o700 });
}

#[test]
fn relative_storage_data_home_is_refused_at_parse() {
    let explicit =
        r#"{ "version": 1, "storage": { "backend": "sqlite", "data_home": "relative/home" } }"#;
    let err = parse_at(explicit, "/golden/subc.jsonc", "/data").expect_err("relative data_home");
    assert!(invalid_message(&err).contains("relative path relative/home"));

    let fallen = default_data_home(&unix_data(None, None));
    let err = parse_at(
        r#"{ "version": 1, "storage": { "backend": "sqlite" } }"#,
        "/golden/subc.jsonc",
        &fallen,
    )
    .expect_err("no home in env must refuse");
    assert!(invalid_message(&err).contains("no absolute XDG_DATA_HOME"));

    let absolute =
        r#"{ "version": 1, "storage": { "backend": "sqlite", "data_home": "/abs/home" } }"#;
    let config = parse_at(absolute, "/golden/subc.jsonc", "relative").expect("absolute parses");
    assert_eq!(data_home(&config), some("/abs/home"));
}

#[test]
fn no_storage_section_yields_none() {
    let config = parse(r#"{ "version": 1, "modules": {} }"#).expect("parse");
    assert!(config.storage.is_none());
}

#[test]
fn sqlite_storage_parses_with_explicit_data_home() {
    let config =
        parse(r#"{ "version": 1, "storage": { "backend": "sqlite", "data_home": "/data" } }"#)
            .expect("parse");
    assert_eq!(data_home(&config), some("/data"));
}

#[test]
fn sqlite_storage_defaults_data_home_when_omitted() {
    let home = default_data_home(&unix_data(some("/forced/data/home"), None));
    let config = parse_at(
        r#"{ "version": 1, "storage": { "backend": "sqlite" } }"#,
        "/tmp/subc.jsonc",
        &home,
    )
    .expect("parse");
    assert_eq!(data_home(&config), some("/forced/data/home"));
}

#[test]
fn descriptor_for_matches_store_types_shape() {
    let config = StorageConfig::Sqlite { data_home: "/data".to_string() };
    let descriptor = config.descriptor_for("alfonso-routing");
    assert_eq!(descriptor.module_id, "alfonso-routing");
    assert_eq!(descriptor.storage_namespace, "default");
    assert_eq!(descriptor.isolation_kind, "module");
    assert_eq!(descriptor.backend, "sqlite");
    assert_eq!(descriptor.path, "/data/cortexkit/alfonso-routing/store.db");
}

#[test]
fn a_store_path_has_one_separator_behind_the_data_home() {
    let config = StorageConfig::Sqlite { data_home: "/data///".to_string() };
    assert_eq!(config.descriptor_for("m").path, "/data/cortexkit/m/store.db");
}

#[test]
fn path_hazard_module_id_refuses_config_parse() {
    let err = refusal(r#"{ "version": 1, "modules": { "../escape": { "program": "x" } } }"#);
    let text = err.to_text();
    assert!(text.contains("not usable as a path component"), "{text}");
    assert_eq!(
        text,
        "invalid daemon config /tmp/subc.jsonc: module id '../escape' is not usable as a path \
         component (contains a path separator): the daemon derives each module's store path from \
         its id"
    );
}

#[test]
fn drain_timeout_resolves_module_over_daemon_over_absent() {
    let config = parse(
        r#"{
          "version": 1,
          "drain_timeout_ms": 45000,
          "modules": {
            "fast": { "program": "fast", "drain_timeout_ms": 0 },
            "slow": { "program": "slow", "drain_timeout_ms": 120000 },
            "inherits": { "program": "inherits" }
          }
        }"#,
    )
    .unwrap();
    assert_eq!(module(&config, "fast").drain_timeout_ms, Some(0));
    assert_eq!(module(&config, "slow").drain_timeout_ms, Some(120_000));
    assert_eq!(module(&config, "inherits").drain_timeout_ms, Some(45_000));
    assert_eq!(config.drain_timeout_ms, Some(45_000));
}

#[test]
fn drain_timeout_absent_everywhere_stays_none_for_builtin_default() {
    let config = parse(r#"{ "version": 1, "modules": { "m": { "program": "m" } } }"#).unwrap();
    assert_eq!(config.modules[0].drain_timeout_ms, None);
    assert_eq!(config.drain_timeout_ms, None);
}

#[test]
fn route_bind_relay_timeout_resolves_module_over_daemon_over_absent() {
    let config = parse(
        r#"{
          "version": 1,
          "route_bind_relay_timeout_ms": 30000,
          "modules": {
            "tight": { "program": "tight", "route_bind_relay_timeout_ms": 5000 },
            "loose": { "program": "loose", "route_bind_relay_timeout_ms": 60000 },
            "inherits": { "program": "inherits" }
          }
        }"#,
    )
    .unwrap();
    assert_eq!(module(&config, "tight").route_bind_relay_timeout_ms, Some(5_000));
    assert_eq!(module(&config, "loose").route_bind_relay_timeout_ms, Some(60_000));
    assert_eq!(module(&config, "inherits").route_bind_relay_timeout_ms, Some(30_000));
    assert_eq!(config.route_bind_relay_timeout_ms, Some(30_000));
}

#[test]
fn log_tag_keys_must_be_logger_names_and_the_error_names_the_key() {
    for bad in ["Perf", "a b", "perf.", ".perf", "gc..walk", "a=b"] {
        let doc = format!(
            r#"{{ "version": 1, "modules": {{ "m": {{ "program": "m", "log": {{ "tags": {{ "{bad}": "debug" }} }} }} }} }}"#
        );
        let text = refusal(&doc).to_text();
        assert!(text.contains(&format!("{bad:?}")), "must name the key: {text}");
        assert!(text.contains("logger name"), "must say what a key is: {text}");
    }
    let ok = parse(
        r#"{ "version": 1, "modules": { "m": { "program": "m", "log": { "tags": { "perf": "debug", "gc.walk": "trace", "m": "error", "a-b": "info" } } } } }"#,
    );
    assert!(ok.is_ok(), "{ok:?}");
}

#[test]
fn an_empty_logger_name_and_one_that_starts_with_a_digit_are_refused() {
    for bad in ["", "1a", "a.1", "-a"] {
        let doc = format!(r#"{{ "version": 1, "log": {{ "tags": {{ "{bad}": "debug" }} }} }}"#);
        assert!(refusal(&doc).to_text().contains("daemon log.tags key"));
    }
    assert!(parse(r#"{ "version": 1, "log": { "tags": { "a1-": "debug" } } }"#).is_ok());
}

#[test]
fn log_filter_spec_prefixes_bare_keys_with_the_module_and_passes_absolute_ones() {
    let config = parse(
        r#"{ "version": 1, "modules": { "synapse": { "program": "s", "log": { "level": "warn", "tags": { "perf": "debug", "gc.walk": "trace", "synapse": "error", "other.x": "info" } } } } }"#,
    )
    .unwrap();
    let log = config.modules[0].log.as_ref().unwrap();
    assert_eq!(
        log.filter_spec("synapse"),
        "warn,gc.walk=trace,other.x=info,synapse.perf=debug,synapse=error"
    );
}

#[test]
fn log_alarm_segment_mb_defaults_to_the_crate_default_and_refuses_zero() {
    let config = parse(
        r#"{ "version": 1, "modules": { "m": { "program": "m", "log": { "level": "info" } } } }"#,
    )
    .unwrap();
    let log = config.modules[0].log.as_ref().unwrap();
    assert_eq!(log.alarm_segment_mb, DEFAULT_ALARM_MB);
    assert_eq!(log.segment_retention().alarm_segment_mb, DEFAULT_ALARM_MB);
    assert_eq!(log.segment_retention().max_age_days, 14);
    let err = refusal(
        r#"{ "version": 1, "modules": { "m": { "program": "m", "log": { "alarm_segment_mb": 0 } } } }"#,
    );
    assert!(err.to_text().contains("alarm_segment_mb"));
}

#[test]
fn an_unknown_level_and_a_zero_file_size_are_refused() {
    let text = refusal(r#"{ "version": 1, "log": { "level": "loud" } }"#).to_text();
    assert!(text.ends_with(
        "daemon log.level must be one of off, error, warn, info, debug, trace; got \"loud\""
    ));
    let text = refusal(r#"{ "version": 1, "log": { "tags": { "a": "loud" } } }"#).to_text();
    assert!(text.ends_with(
        "daemon log.tags.a must be one of off, error, warn, info, debug, trace; got \"loud\""
    ));
    let text = refusal(r#"{ "version": 1, "log": { "max_file_mb": 0 } }"#).to_text();
    assert!(text.ends_with("daemon log.max_file_mb must be greater than 0"));
}

#[test]
fn a_module_without_a_logging_block_inherits_the_daemons() {
    let doc = r#"{ "version": 1, "log": { "level": "debug", "keep": 2 }, "modules": {
        "own": { "program": "p", "log": { "level": "warn" } }, "plain": { "program": "p" } } }"#;
    let config = parse(doc).unwrap();
    assert_eq!(module(&config, "own").log.as_ref().unwrap().level, "warn");
    let inherited = module(&config, "plain").log.as_ref().unwrap();
    assert_eq!(inherited.level, "debug");
    assert_eq!(inherited.retention.keep, 2);
    let early = load_logging(
        "/tmp/subc.jsonc",
        ConfigDocument::Parsed(raw_config(doc).unwrap()),
        &logging_defaults(),
    )
    .unwrap()
    .unwrap();
    assert_eq!(early.level, inherited.level);
}

#[test]
fn the_logging_block_is_read_whatever_else_is_wrong() {
    let doc = r#"{ "version": 1, "log": { "level": "error" }, "route_bind_relay_timeout_ms": 0 }"#;
    assert!(parse(doc).is_err());
    let log = load_logging(
        "/p",
        ConfigDocument::Parsed(raw_config(doc).unwrap()),
        &logging_defaults(),
    )
    .unwrap()
    .unwrap();
    assert_eq!(log.level, "error");
    let err = load_logging(
        "/p",
        ConfigDocument::Parsed(raw_config(r#"{ "version": 7 }"#).unwrap()),
        &logging_defaults(),
    )
    .unwrap_err();
    assert!(matches!(err, DaemonConfigError::UnsupportedVersion { version: 7, .. }));
    assert!(load_logging("/p", ConfigDocument::Absent, &logging_defaults()).unwrap().is_none());
}

#[test]
fn route_bind_relay_timeout_zero_at_daemon_layer_is_refused() {
    let text = refusal(
        r#"{ "version": 1, "route_bind_relay_timeout_ms": 0, "modules": { "m": { "program": "m" } } }"#,
    )
    .to_text();
    assert!(text.contains("route_bind_relay_timeout_ms"), "{text}");
    assert!(text.contains("enabled: false"), "{text}");
}

#[test]
fn route_bind_relay_timeout_zero_at_module_layer_is_refused() {
    let text = refusal(
        r#"{
          "version": 1,
          "modules": {
            "good": { "program": "good" },
            "broken": { "program": "broken", "route_bind_relay_timeout_ms": 0 }
          }
        }"#,
    )
    .to_text();
    assert!(text.contains("route_bind_relay_timeout_ms"), "{text}");
    assert!(text.contains("broken"), "{text}");
    assert!(text.contains("enabled: false"), "{text}");
}

#[test]
fn drain_timeout_zero_still_parses_for_wedge_bounces() {
    let config = parse(
        r#"{
          "version": 1,
          "drain_timeout_ms": 0,
          "modules": { "wedge": { "program": "wedge", "drain_timeout_ms": 0 } }
        }"#,
    )
    .expect("drain_timeout_ms: 0 must still parse");
    assert_eq!(module(&config, "wedge").drain_timeout_ms, Some(0));
    assert_eq!(config.drain_timeout_ms, Some(0));
}

#[test]
fn route_bind_relay_timeout_absent_everywhere_stays_none_for_builtin_default() {
    let config = parse(r#"{ "version": 1, "modules": { "m": { "program": "m" } } }"#).unwrap();
    assert_eq!(config.modules[0].route_bind_relay_timeout_ms, None);
    assert_eq!(config.route_bind_relay_timeout_ms, None);
}

#[test]
fn a_config_without_a_restart_block_keeps_the_supervisor_defaults() {
    let config = parse(r#"{ "version": 1, "modules": { "m": { "program": "m" } } }"#).unwrap();
    let restart = &config.modules[0].restart;
    assert_eq!(restart.max_restarts, 3);
    assert_eq!(restart.window, Span::from_secs(600));
    assert_eq!(restart.backoff, Span::from_millis(100));
    assert_eq!(restart.max_backoff, Span::from_secs(30));
    assert_eq!(RestartPolicy::default().window, Span::from_secs(600));
}

#[test]
fn a_restart_block_resolves_each_key_independently() {
    let config = parse(
        r#"{
          "version": 1,
          "modules": {
            "all": {
              "program": "all",
              "restart": { "max_restarts": 5, "window_secs": 60, "backoff_ms": 250, "max_backoff_ms": 5000 }
            },
            "window-only": { "program": "window-only", "restart": { "window_secs": 7200 } },
            "never": { "program": "never", "restart": { "max_restarts": 0 } }
          }
        }"#,
    )
    .unwrap();
    let all = &module(&config, "all").restart;
    assert_eq!(all.max_restarts, 5);
    assert_eq!(all.window, Span::from_secs(60));
    assert_eq!(all.backoff, Span::from_millis(250));
    assert_eq!(all.max_backoff, Span::from_secs(5));
    let window_only = &module(&config, "window-only").restart;
    assert_eq!(window_only.max_restarts, 3);
    assert_eq!(window_only.window, Span::from_secs(7_200));
    assert_eq!(window_only.backoff, Span::from_millis(100));
    assert_eq!(window_only.max_backoff, Span::from_secs(30));
    assert_eq!(module(&config, "never").restart.max_restarts, 0);
}

#[test]
fn restart_window_zero_is_refused_by_name() {
    let err = refusal(
        r#"{
          "version": 1,
          "modules": {
            "good": { "program": "good" },
            "broken": { "program": "broken", "restart": { "window_secs": 0 } }
          }
        }"#,
    );
    assert!(matches!(err, DaemonConfigError::InvalidValue { .. }), "{err:?}");
    let text = err.to_text();
    assert!(text.contains("restart.window_secs"), "{text}");
    assert!(text.contains("broken"), "{text}");
    assert!(text.contains("max_restarts: 0"), "{text}");
}

#[test]
fn restart_max_backoff_below_backoff_is_refused_by_name() {
    let err = refusal(
        r#"{
          "version": 1,
          "modules": {
            "broken": { "program": "broken", "restart": { "backoff_ms": 1000, "max_backoff_ms": 999 } }
          }
        }"#,
    );
    assert!(matches!(err, DaemonConfigError::InvalidValue { .. }), "{err:?}");
    let text = err.to_text();
    assert!(text.contains("restart.max_backoff_ms"), "{text}");
    assert!(text.contains("restart.backoff_ms"), "{text}");
    assert!(text.contains("broken"), "{text}");
    assert!(text.ends_with("(max_backoff_ms=999ms, backoff_ms=1s)"), "{text}");
}

#[test]
fn parse_jsonc_defaults_and_ignores_unknown_fields() {
    let config = parse(
        r#"{
          "version": 1,
          "unknown": { "ignored": true },
          "modules": {
            "aft": {
              "program": "aft",
              "args": ["module"],
              "env": { "A": "B" },
              "future": 42
            },
            "disabled": { "program": "disabled", "enabled": false }
          }
        }"#,
    )
    .unwrap();
    assert_eq!(config.port, None);
    assert_eq!(config.modules.len(), 2);
    assert_eq!(config.modules[0].module_id, "aft");
    assert_eq!(config.modules[0].program, "aft");
    assert_eq!(config.modules[0].args, ["module"]);
    assert_eq!(config.modules[0].env, [("A".to_string(), "B".to_string())]);
    assert!(config.modules[0].enabled);
    assert!(config.modules[0].reserved_prefixes.is_empty());
    assert!(config.modules[0].health.equals(&default_health()));
    assert!(!config.modules[1].enabled);
}

#[test]
fn reserved_capabilities_accept_unknown_bound_modules_and_refuse_bad_identifiers() {
    let config = parse(
        r#"{
            "version": 1,
            "reserved_capabilities": { "credentials-provider/v1": "future-vault" },
            "modules": {}
        }"#,
    )
    .expect("a binding may predate its provider installation");
    assert_eq!(
        config.reserved_capabilities,
        [("credentials-provider/v1".to_string(), "future-vault".to_string())]
    );
    let error = refusal(
        r#"{ "version": 1, "reserved_capabilities": { "Credentials/v1": "vault" }, "modules": {} }"#,
    );
    assert!(error.to_text().contains("reserved_capabilities key"));
}

#[test]
fn a_reserved_capability_needs_a_module_id_that_can_be_a_path() {
    let text = refusal(r#"{ "version": 1, "reserved_capabilities": { "a/v1": " \t" } }"#).to_text();
    assert!(text.ends_with("reserved_capabilities binding for \"a/v1\" has an empty module id"));
    let text = refusal(r#"{ "version": 1, "reserved_capabilities": { "a/v1": "x/y" } }"#).to_text();
    assert!(text.ends_with(
        "reserved_capabilities binding for \"a/v1\" has an unusable module id \"x/y\": contains a \
         path separator"
    ));
}

#[test]
fn an_absent_protocol_key_and_an_explicit_subc_are_the_same_module() {
    let parse_module = |body: &str| {
        parse(&format!(
            r#"{{ "version": 1, "modules": {{ "aft": {{ "program": "aft"{body} }} }} }}"#
        ))
        .expect("module parses")
        .modules
        .remove(0)
    };
    let absent = parse_module("");
    let explicit = parse_module(r#", "protocol": "subc""#);
    let none = parse_module(r#", "protocol": "none""#);
    assert_eq!(absent.protocol, ModuleProtocol::Subc);
    assert_eq!(explicit.protocol, ModuleProtocol::Subc);
    assert_eq!(format!("{absent:?}"), format!("{explicit:?}"));
    assert_eq!(none.protocol, ModuleProtocol::NoProtocol);
    assert_eq!(none.module_spec().protocol, ModuleProtocol::NoProtocol);
}

#[test]
fn an_unsupported_protocol_value_is_refused_by_name() {
    let error = refusal(
        r#"{ "version": 1, "modules": { "nats": { "program": "nats-server", "protocol": "grpc" } } }"#,
    );
    assert!(matches!(error, DaemonConfigError::InvalidValue { .. }), "{error:?}");
    let message = error.to_text();
    assert!(message.contains("grpc"), "{message}");
    assert!(message.contains("nats"), "{message}");
}

#[test]
fn reserved_true_with_protocol_none_is_refused_with_the_reason() {
    let error = refusal(
        r#"{
          "version": 1,
          "modules": { "nats": { "program": "nats-server", "protocol": "none", "reserved": true } }
        }"#,
    );
    assert!(matches!(error, DaemonConfigError::InvalidValue { .. }), "{error:?}");
    let message = error.to_text();
    assert!(message.contains("nats") && message.contains("reserved"), "{message}");
    assert!(message.contains("HELLO") || message.contains("never registers"), "{message}");
}

#[test]
fn a_module_id_is_escaped_where_it_is_quoted() {
    let error = refusal(
        "{ \"version\": 1, \"modules\": { \"a\\u0007b\": { \"program\": \"p\", \"protocol\": \"x\" } } }",
    );
    assert!(error.to_text().contains("module 'a\\u{7}b' declares protocol \"x\""));
}

#[test]
fn reserved_prefixes_parse_for_reserved_modules() {
    let config = parse(
        r#"{
          "version": 1,
          "modules": {
            "federation": { "program": "fed", "reserved": true, "reserved_prefixes": ["fed:"] }
          }
        }"#,
    )
    .unwrap();
    assert_eq!(config.modules[0].reserved_prefixes, ["fed:".to_string()]);
}

#[test]
fn reserved_prefixes_reject_bad_boundaries_and_owners() {
    let missing_delimiter = refusal(
        r#"{ "version": 1, "modules": {
            "federation": { "program": "fed", "reserved": true, "reserved_prefixes": ["fed"] } } }"#,
    );
    assert_eq!(
        invalid_message(&missing_delimiter),
        "module 'federation' reserved prefix 'fed' must end with ':'"
    );
    let non_reserved_owner = refusal(
        r#"{ "version": 1, "modules": {
            "federation": { "program": "fed", "reserved_prefixes": ["fed:"] } } }"#,
    );
    assert_eq!(
        invalid_message(&non_reserved_owner),
        "module 'federation' reserved_prefixes require reserved=true so the owner is spawn-nonce protected"
    );
}

#[test]
fn reserved_prefixes_reject_cross_owner_overlap_and_exact_id_collisions() {
    let overlap = refusal(
        r#"{ "version": 1, "modules": {
            "fed-owner": { "program": "fed", "reserved": true, "reserved_prefixes": ["fed:"] },
            "sub-owner": { "program": "fed-sub", "reserved": true, "reserved_prefixes": ["fed:sub:"] } } }"#,
    );
    assert_eq!(
        invalid_message(&overlap),
        "reserved prefixes 'fed:' owned by 'fed-owner' and 'fed:sub:' owned by 'sub-owner' overlap"
    );
    let exact_collision = refusal(
        r#"{ "version": 1, "modules": {
            "federation": { "program": "fed", "reserved": true, "reserved_prefixes": ["fed:"] },
            "fed:special": { "program": "special" } } }"#,
    );
    assert_eq!(
        invalid_message(&exact_collision),
        "reserved prefix 'fed:' owned by 'federation' collides with configured module id 'fed:special'"
    );
}

#[test]
fn health_config_parses_and_ignores_unknown_fields() {
    let config = parse(
        r#"{
          "version": 1,
          "modules": {
            "aft": {
              "program": "aft",
              "health": {
                "cadence_ms": 100,
                "deadline_ms": 20,
                "failure_threshold": 2,
                "on_degraded": "report",
                "on_failing": "restart",
                "critical": true,
                "future": "ignored"
              }
            }
          }
        }"#,
    )
    .unwrap();
    let health = config.modules[0].health;
    assert_eq!(health.cadence, Span::from_millis(100));
    assert_eq!(health.deadline, Span::from_millis(20));
    assert_eq!(health.failure_threshold, 2);
    assert_eq!(health.on_degraded, HealthAction::Report);
    assert_eq!(health.on_failing, HealthAction::Restart);
    assert!(health.critical);
}

#[test]
fn health_config_rejects_bad_enum_and_non_positive_numbers() {
    let bad_enum = refusal(
        r#"{ "version": 1, "modules": { "aft": { "program": "aft", "health": { "on_failing": "page" } } } }"#,
    );
    assert!(matches!(bad_enum, DaemonConfigError::InvalidJson { .. }));
    let zero = refusal(
        r#"{ "version": 1, "modules": { "aft": { "program": "aft", "health": { "cadence_ms": 0 } } } }"#,
    );
    assert_eq!(invalid_message(&zero), "module 'aft' health.cadence_ms must be positive");
    let zero = refusal(
        r#"{ "version": 1, "modules": { "aft": { "program": "aft", "health": { "failure_threshold": 0 } } } }"#,
    );
    assert_eq!(invalid_message(&zero), "module 'aft' health.failure_threshold must be positive");
}

#[test]
fn a_degraded_module_is_never_restarted_for_it() {
    let err = refusal(
        r#"{ "version": 1, "modules": { "aft": { "program": "aft", "health": { "on_degraded": "restart" } } } }"#,
    );
    assert!(invalid_message(&err).starts_with("module 'aft' health.on_degraded may not be 'restart'"));
}

#[test]
fn admission_facts_carrier_requires_non_empty_targets() {
    let missing = refusal(
        r#"{ "version": 1, "admission_facts_carrier_module_id": "fed",
             "modules": { "fed": { "program": "fed", "reserved": true } } }"#,
    );
    assert!(invalid_message(&missing).contains("must be present"));
    let empty = refusal(
        r#"{ "version": 1, "admission_facts_carrier_module_id": "fed",
             "admission_facts_targets": [""],
             "modules": { "fed": { "program": "fed", "reserved": true } } }"#,
    );
    assert!(invalid_message(&empty).contains("must be non-empty"));
}

#[test]
fn admission_facts_carrier_must_be_enabled_reserved_and_configured() {
    for module in [
        r#"{ "program": "fed", "enabled": false, "reserved": true }"#,
        r#"{ "program": "fed", "enabled": true, "reserved": false }"#,
    ] {
        let doc = format!(
            r#"{{ "version": 1, "admission_facts_carrier_module_id": "fed",
                  "admission_facts_targets": ["target"],
                  "modules": {{ "fed": {module}, "target": {{ "program": "target" }} }} }}"#
        );
        assert!(invalid_message(&refusal(&doc)).contains("enabled reserved module"));
    }
    let absent = refusal(
        r#"{ "version": 1, "admission_facts_carrier_module_id": "missing",
             "admission_facts_targets": ["target"],
             "modules": { "target": { "program": "target" } } }"#,
    );
    assert!(invalid_message(&absent).contains("must name a configured module"));
}

#[test]
fn reject_unsupported_version() {
    let err = refusal(r#"{ "version": 2, "modules": {} }"#);
    assert!(matches!(err, DaemonConfigError::UnsupportedVersion { version: 2, .. }));
    assert_eq!(
        err.to_text(),
        "invalid daemon config /tmp/subc.jsonc: version 2 is unsupported (expected 1)"
    );
}

#[test]
fn reject_unterminated_block_comment() {
    let err = load(
        "subc.jsonc",
        ConfigDocument::NotJsonc("unterminated block comment".to_string()),
        &defaults_at("/data"),
    )
    .unwrap_err();
    assert!(matches!(err, DaemonConfigError::InvalidJsonc { .. }));
    assert_eq!(
        err.to_text(),
        "invalid JSONC in daemon config subc.jsonc: unterminated block comment"
    );
}

#[test]
fn an_absent_file_is_no_error_and_an_unreadable_one_is() {
    assert!(load("p", ConfigDocument::Absent, &defaults_at("/d")).unwrap().is_none());
    let err = load("p", ConfigDocument::Unreadable("denied".to_string()), &defaults_at("/d"))
        .unwrap_err();
    assert_eq!(err.to_text(), "failed to read daemon config p: denied");
    let err =
        load("p", ConfigDocument::NotJson("oops".to_string()), &defaults_at("/d")).unwrap_err();
    assert_eq!(err.to_text(), "invalid daemon config p: oops");
}

#[test]
fn one_wrong_module_refuses_the_whole_file() {
    let doc = r#"{ "version": 1, "modules": {
        "a": { "program": "a" }, "b": { "program": "b", "protocol": "x" } } }"#;
    let raw = raw_config(doc).unwrap();
    assert!(parse_doc(raw, &defaults_at("/d"), "p").is_err());
}

#[test]
fn a_logging_policy_replaces_the_modules_own_variables() {
    let config = parse(
        r#"{ "version": 1, "modules": { "m": { "program": "p",
            "env": { "A": "1", "CK_LOG": "stale", "__SUBC_CAPTURE_LOG_KEEP": "9", "CK_LOG_MAX_AGE_DAYS": "9" },
            "log": { "level": "debug", "max_file_mb": 7, "keep": 2, "max_age_days": 3, "alarm_segment_mb": 11 } } } }"#,
    )
    .unwrap();
    let env = config.modules[0].module_spec().env;
    let pairs: Vec<(&str, &str)> = env.iter().map(|(k, v)| (k.as_str(), v.as_str())).collect();
    assert_eq!(
        pairs,
        [
            ("A", "1"),
            ("CK_LOG", "debug"),
            ("CK_LOG_MAX_AGE_DAYS", "3"),
            ("CK_LOG_ALARM_SEGMENT_MB", "11"),
            ("__SUBC_CAPTURE_LOG_MAX_FILE_MB", "7"),
            ("__SUBC_CAPTURE_LOG_KEEP", "2"),
            ("__SUBC_CAPTURE_LOG_MAX_AGE_DAYS", "3"),
        ]
    );
}

#[test]
fn a_module_without_a_policy_keeps_its_own_variables() {
    let config = parse(
        r#"{ "version": 1, "modules": { "m": { "program": "p", "env": { "CK_LOG": "mine" } } } }"#,
    )
    .unwrap();
    assert_eq!(
        config.modules[0].module_spec().env,
        [("CK_LOG".to_string(), "mine".to_string())]
    );
}
