use subc_daemon::control::rescan::plan::{
    reconcile_supervised_modules, rescan_next, RescanAction, RescanNext, RunningModule,
};
use subc_daemon::control::rescan::{
    release_answer, release_gate, rescan_answer, rescan_end, rescan_gate, rescan_spec_refusal,
    restart_required_sections, CapabilityStep, RescanContext, RescanEnd, RescanGate,
};
use subc_daemon::daemon_config::document::{DaemonConfig, DaemonConfigError};
use subc_daemon::daemon_config::module::ConfiguredModule;
use subc_daemon::daemon_config::policy::{HealthAction, HealthConfig, RestartPolicy};
use subc_daemon::daemon_config::{ModuleProtocol, StorageConfig};
use subc_daemon::span::Span;

fn health() -> HealthConfig {
    HealthConfig {
        cadence: Span::from_secs(30),
        deadline: Span::from_secs(5),
        failure_threshold: 3,
        on_degraded: HealthAction::Report,
        on_failing: HealthAction::Report,
        critical: false,
    }
}

fn module(id: &str, program: &str, enabled: bool) -> ConfiguredModule {
    ConfiguredModule {
        module_id: id.to_string(),
        program: program.to_string(),
        args: Vec::new(),
        env: Vec::new(),
        log: None,
        enabled,
        reserved: false,
        reserved_prefixes: Vec::new(),
        protocol: ModuleProtocol::Subc,
        health: health(),
        drain_timeout_ms: None,
        route_bind_relay_timeout_ms: None,
        restart: RestartPolicy::default(),
    }
}

fn running(id: &str, program: &str, enabled: bool) -> RunningModule {
    RunningModule {
        module_id: id.to_string(),
        configuration: Ok((module(id, program, enabled).module_spec(), health())),
        enabled: Ok(enabled),
    }
}

fn fleet() -> (Vec<RunningModule>, Vec<ConfiguredModule>) {
    (
        vec![
            running("changed", "old", true),
            running("gone", "gone", true),
            running("same", "same", true),
            running("toggled", "toggled", true),
        ],
        vec![
            module("changed", "new", true),
            module("fresh", "fresh", false),
            module("same", "same", true),
            module("toggled", "toggled", false),
        ],
    )
}

#[test]
fn a_rescan_tells_added_removed_changed_and_toggled_apart() {
    let (running, configured) = fleet();
    let plan = reconcile_supervised_modules(false, &running, &configured, false).unwrap();
    assert_eq!(plan.diff.added, ["fresh"]);
    assert_eq!(plan.diff.removed, ["gone"]);
    assert_eq!(plan.diff.changed_pending_reload, ["changed"]);
    assert_eq!(plan.diff.enabled_changes, ["toggled"]);
    assert_eq!(plan.diff.unchanged, 1);
    let mut retired = None;
    let mut forgotten = None;
    for (at, action) in plan.actions.iter().enumerate() {
        match action {
            RescanAction::Retire { module_id } => {
                assert_eq!(module_id, "gone");
                retired = Some(at);
            }
            RescanAction::RecordRemoval { module_id } => assert_eq!(module_id, "gone"),
            RescanAction::Forget { module_id } => {
                assert_eq!(module_id, "gone");
                forgotten = Some(at);
            }
            RescanAction::Update { module_id, spec, .. } => {
                if module_id == "changed" {
                    assert_eq!(spec.program, "new");
                }
            }
            RescanAction::SetEnabled { module_id, enabled } => {
                assert_eq!(module_id, "toggled");
                assert!(!*enabled);
            }
            RescanAction::Add { module_id, enabled, .. } => {
                assert_eq!(module_id, "fresh");
                assert!(!*enabled);
            }
        }
    }
    assert!(retired.expect("retired") < forgotten.expect("forgotten"));
}

#[test]
fn a_preview_tells_the_same_and_does_nothing() {
    let (running, configured) = fleet();
    let plan = reconcile_supervised_modules(false, &running, &configured, true).unwrap();
    assert!(plan.actions.is_empty());
    assert_eq!(plan.diff.added, ["fresh"]);
    assert_eq!(plan.diff.removed, ["gone"]);
    let answer = rescan_answer::<u8>(plan.diff, true, vec!["port".to_string()], Vec::new());
    assert!(answer.preview);
    assert_eq!(answer.restart_required, ["port"]);
    assert_eq!(answer.unchanged, 1);
}

#[test]
fn a_module_that_cannot_be_read_ends_the_rescan() {
    let (_, configured) = fleet();
    let unreadable = |configuration, enabled| {
        vec![RunningModule { module_id: "same".to_string(), configuration, enabled }]
    };
    let error = reconcile_supervised_modules(
        false,
        &unreadable(Err("lost".to_string()), Ok(true)),
        &configured,
        false,
    )
    .unwrap_err();
    assert_eq!(error, "failed to read configuration for module_id 'same': lost");
    let spec = module("same", "same", true).module_spec();
    let error = reconcile_supervised_modules(
        false,
        &unreadable(Ok((spec, health())), Err("lost".to_string())),
        &configured,
        false,
    )
    .unwrap_err();
    assert_eq!(error, "failed to read status for module_id 'same': lost");
}

#[test]
fn a_rescan_stops_at_the_first_action_that_fails() {
    let (running, configured) = fleet();
    let actions = reconcile_supervised_modules(false, &running, &configured, false).unwrap().actions;
    assert!(matches!(rescan_next(&actions, 0, None), RescanNext::Take(0)));
    assert!(matches!(rescan_next(&actions, actions.len(), None), RescanNext::Done));
    let at = actions
        .iter()
        .position(|action| matches!(action, RescanAction::Add { .. }))
        .expect("an addition");
    match rescan_next(&actions, at + 1, Some("no such program".to_string())) {
        RescanNext::Failed(error) => {
            assert_eq!(error.code, "rescan_failed");
            assert_eq!(
                error.message,
                "failed to add module_id 'fresh' during rescan: no such program"
            );
        }
        other => panic!("{other:?}"),
    }
}

fn context() -> RescanContext {
    RescanContext {
        windows: false,
        config_path: "/etc/subc.jsonc".to_string(),
        configured_port: Some(1),
        storage_config: None,
        admission_facts_carrier_module_id: None,
        admission_facts_targets: None,
    }
}

fn config(modules: Vec<ConfiguredModule>) -> DaemonConfig {
    DaemonConfig {
        path: "/etc/subc.jsonc".to_string(),
        port: Some(1),
        drain_timeout_ms: None,
        route_bind_relay_timeout_ms: None,
        modules,
        storage: None,
        admission_facts_carrier_module_id: None,
        admission_facts_targets: None,
        reserved_capabilities: Vec::new(),
    }
}

#[test]
fn a_section_that_only_a_restart_applies_is_named() {
    assert!(restart_required_sections(&context(), &config(Vec::new())).is_empty());
    let mut changed = config(Vec::new());
    changed.port = None;
    changed.storage = Some(StorageConfig::Sqlite { data_home: "/d".to_string() });
    changed.admission_facts_carrier_module_id = Some("fed".to_string());
    changed.admission_facts_targets = Some(Vec::new());
    assert_eq!(
        restart_required_sections(&context(), &changed),
        ["port", "storage", "admission_facts_carrier_module_id", "admission_facts_targets"]
    );
}

#[test]
fn a_data_home_that_is_only_written_otherwise_needs_no_restart() {
    let stored = |home: &str| Some(StorageConfig::Sqlite { data_home: home.to_string() });
    let mut started = context();
    started.storage_config = stored("/data");
    let mut read = config(Vec::new());
    for same in ["/data", "/data/", "//data", "/data/."] {
        read.storage = stored(same);
        assert!(restart_required_sections(&started, &read).is_empty(), "{same}");
    }
    for other in ["/data/x", "data", "/Data"] {
        read.storage = stored(other);
        assert_eq!(restart_required_sections(&started, &read), ["storage"], "{other}");
    }
}

#[test]
fn a_program_that_is_only_written_otherwise_is_no_change() {
    let running = vec![running("aft", "/opt/aft", true)];
    let plan =
        reconcile_supervised_modules(false, &running, &vec![module("aft", "/opt//aft", true)], false)
            .unwrap();
    assert!(plan.diff.changed_pending_reload.is_empty());
    assert_eq!(plan.diff.unchanged, 1);
    let plan =
        reconcile_supervised_modules(false, &running, &vec![module("aft", "/opt/aft2", true)], false)
            .unwrap();
    assert_eq!(plan.diff.changed_pending_reload, ["aft"]);
}

#[test]
fn only_an_executed_rescan_reaches_the_capability_evaluator() {
    let end = |failed, preview| {
        let (running, configured) = fleet();
        let mut config = config(configured);
        config.reserved_capabilities = vec![("store/v1".to_string(), "same".to_string())];
        let plan = reconcile_supervised_modules(false, &running, &config.modules, preview).unwrap();
        rescan_end(failed, &config, plan.diff, preview, Vec::new(), vec![7u8])
    };
    match end(None, false) {
        RescanEnd::Answered { follow_up, answer } => {
            assert_eq!(follow_up.len(), 3);
            match &follow_up[0] {
                CapabilityStep::Configure { modules, reserved_capabilities } => {
                    assert_eq!(modules.len(), 4);
                    assert_eq!(modules[1], ("fresh".to_string(), false));
                    assert_eq!(
                        reserved_capabilities,
                        &[("store/v1".to_string(), "same".to_string())]
                    );
                }
                other => panic!("{other:?}"),
            }
            assert!(matches!(&follow_up[1], CapabilityStep::WakeDeadlines));
            assert!(matches!(&follow_up[2], CapabilityStep::RefreshRequirements));
            assert!(answer.capability_warnings.is_empty());
            assert_eq!(answer.added, ["fresh"]);
        }
        other => panic!("{other:?}"),
    }
    match end(None, true) {
        RescanEnd::Answered { follow_up, answer } => {
            assert!(follow_up.is_empty());
            assert!(answer.preview);
            assert_eq!(answer.capability_warnings, [7]);
        }
        other => panic!("{other:?}"),
    }
    let failure = match rescan_next(&Vec::new(), 0, Some("no".to_string())) {
        RescanNext::Failed(error) => error,
        other => panic!("{other:?}"),
    };
    assert!(matches!(end(Some(failure), false), RescanEnd::Refused(error) if error.message == "no"));
}

fn refused(gate: RescanGate) -> (String, String) {
    match gate {
        RescanGate::Refused(error) => (error.code, error.message),
        other => panic!("{other:?}"),
    }
}

#[test]
fn an_absent_or_broken_configuration_never_retires_modules() {
    let (code, _) = refused(rescan_gate(&None, Ok(Some(config(Vec::new())))));
    assert_eq!(code, "rescan_unavailable");
    let (code, message) = refused(rescan_gate(&Some(context()), Ok(None)));
    assert_eq!(code, "invalid_daemon_config");
    assert_eq!(
        message,
        "daemon config not found at /etc/subc.jsonc; refusing to rescan (an absent config would \
         retire every supervised module)"
    );
    let broken = DaemonConfigError::InvalidJson { path: "p".to_string(), source: "s".to_string() };
    let (code, message) = refused(rescan_gate(&Some(context()), Err(broken)));
    assert_eq!(code, "invalid_daemon_config");
    assert_eq!(
        message,
        "supervisor rescan rejected daemon config: invalid daemon config p: s"
    );
    assert!(matches!(
        rescan_gate(&Some(context()), Ok(Some(config(Vec::new())))),
        RescanGate::Go { restart_required, .. } if restart_required.is_empty()
    ));
    assert!(rescan_spec_refusal(&vec![None, None]).is_none());
    let error = rescan_spec_refusal(&vec![None, Some("bad".to_string()), Some("worse".to_string())])
        .expect("refusal");
    assert_eq!(error.message, "supervisor rescan rejected daemon config: bad");
}

#[test]
fn a_reserved_id_is_released_only_once_it_is_gone_from_the_configuration() {
    let code = |context: &Option<RescanContext>, loaded| {
        release_gate(context, &loaded, "vault").map(|error| error.code)
    };
    assert_eq!(code(&None, Ok(None)).as_deref(), Some("release_unavailable"));
    let context = Some(context());
    assert_eq!(code(&context, Ok(None)).as_deref(), Some("invalid_daemon_config"));
    assert_eq!(
        code(&context, Ok(Some(config(vec![module("vault", "v", true)])))).as_deref(),
        Some("reserved_module_configured")
    );
    assert_eq!(code(&context, Ok(Some(config(Vec::new())))), None);
    assert!(release_answer(true, "vault").is_none());
    assert_eq!(
        release_answer(false, "vault").expect("refusal").code,
        "reserved_gate_not_retained"
    );
}
