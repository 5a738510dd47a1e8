//! What holds of every daemon that serves: its limits, its control plane, its steps and
//! its end.
use crate::bootstrap::config::BootstrapConfig;
use crate::bootstrap::error::BootstrapError;
use crate::bootstrap::serve::{
    control_handler, daemon_incarnation, first_steps, hex, in_nanos, maxstdio_raise, module_budgets,
    nofile_raise, prepare_cgroup_placement, relaxed_tolerance_secs, run_next, serve_next,
    serve_steps, start_steps, step_views, supervisions, supervisor_setup, ProcessFacts, RunAction,
    RunEvent, Running, ServeNext, ServeStep, SupervisorSetup,
};
use crate::bootstrap::CgroupPlacementConfig;
use crate::control::answers::tells;
use crate::control::dispatch::ControlStep;
use crate::control::handler::{budgets, ControlHandler};
use crate::control::pushes::CleanupEnd;
use crate::control::rescan::records::is_start_of;
use crate::control::wire::FrameType;
use crate::daemon_config::laws::{lists_differ_by_their_texts, variables_differ_by_their_texts};
use crate::daemon_config::module::{
    enabled_modules, module_views, spec_of, switch_views, ConfiguredModule, ModuleSpec,
};
use crate::daemon_config::policy::HealthConfig;
use crate::daemon_config::StorageConfig;
use crate::span::Span;
use crate::text::{text_option, texts};
use vstd::prelude::*;

verus! {

/// The limit of open files is raised to 65536, or as far as it may be, and never
/// lowered; the limit of open streams is raised to 8192.
pub proof fn how_far_limits_are_raised(
    soft: u64,
    hard: u64,
    files: Option<u64>,
    current: u32,
    streams: Option<u32>,
)
    requires
        call_ensures(nofile_raise, (soft, hard), files),
        call_ensures(maxstdio_raise, (current,), streams),
    ensures
        soft >= 65536 ==> files is None,
        soft < 65536 && hard >= 65536 ==> files == Some(65536u64),
        soft < 65536 && hard < 65536 ==> files == Some(hard),
        current >= 8192 ==> streams is None,
        current < 8192 ==> streams == Some(8192u32),
{
}

/// The daemon's incarnation spells its id byte by byte in two digits.
pub proof fn an_incarnation_spells_the_id(daemon_id: &[u8; 16], r: String, i: int)
    requires
        call_ensures(daemon_incarnation, (daemon_id,), r),
    ensures
        r@.len() == 32,
        0 <= i < 16 ==> {
            let high = (daemon_id@[i] / 16) as int;
            let low = (daemon_id@[i] % 16) as int;
            &&& r@[2 * i] as int == if high < 10 {
                '0' as int + high
            } else {
                'a' as int + high - 10
            }
            &&& r@[2 * i + 1] as int == if low < 10 {
                '0' as int + low
            } else {
                'a' as int + low - 10
            }
        },
{
    two_digits_for_each_byte(daemon_id@, i);
}

proof fn two_digits_for_each_byte(bytes: Seq<u8>, i: int)
    ensures
        hex(bytes).len() == 2 * bytes.len(),
        0 <= i < bytes.len() ==> hex(bytes)[2 * i] == crate::bootstrap::serve::hex_digit(
            (bytes[i] / 16) as nat,
        ) && hex(bytes)[2 * i + 1] == crate::bootstrap::serve::hex_digit((bytes[i] % 16) as nat),
    decreases bytes.len(),
{
    if bytes.len() > 0 {
        let rest = bytes.drop_last();
        two_digits_for_each_byte(rest, i);
        if 0 <= i < rest.len() {
            assert(rest[i] == bytes[i]);
        }
    }
}

/// A module that is checked more patiently than the default is told of by how many
/// seconds it may stay silent; a disabled one is not.
pub proof fn whose_patience_is_told(
    enabled: bool,
    health: &HealthConfig,
    default_threshold: u32,
    r: Option<u128>,
)
    requires
        call_ensures(relaxed_tolerance_secs, (enabled, health, default_threshold), r),
    ensures
        !enabled || health.failure_threshold <= default_threshold ==> r is None,
        enabled && health.failure_threshold > default_threshold ==> r is Some && ((health.cadence@
            / 1_000_000_000) * health.failure_threshold <= u128::MAX ==> r->0 == (health.cadence@
            / 1_000_000_000) * health.failure_threshold),
{
}

/// No place is prepared where placement is off, nor where preparing it failed.
pub proof fn which_place_is_prepared<P>(
    config: &CgroupPlacementConfig,
    prepared: Result<Option<P>, String>,
    r: Option<P>,
)
    requires
        call_ensures(prepare_cgroup_placement::<P>, (config, prepared), r),
    ensures
        config is Disabled ==> r is None,
        prepared is Err ==> r is None,
        !(config is Disabled) ==> (prepared matches Ok(place) ==> r == place),
{
}

/// The supervisor is set up with the daemon's connection file, its incarnation and the
/// places that are configured; the journal carries the incarnation.
pub proof fn what_the_supervisor_is_set_up_with<W>(
    config: &BootstrapConfig<W>,
    incarnation: &str,
    r: SupervisorSetup,
)
    requires
        call_ensures(supervisor_setup::<W>, (config, incarnation), r),
    ensures
        r.connection_file_path@ == config.connection_file_path@,
        r.incarnation@ == incarnation@,
        r.capture_logs_dir is Some <==> config.capture_logs_dir is Some,
        r.capture_logs_dir matches Some(dir) ==> dir@ == config.capture_logs_dir->0@,
        r.live_children_record is Some <==> config.live_children_path is Some,
        r.live_children_record matches Some(path) ==> path@ == config.live_children_path->0@,
        r.journal is Some <==> config.terminal_journal_path is Some,
        r.journal matches Some(journal) ==> journal.path@ == config.terminal_journal_path->0@
            && journal.incarnation@ == incarnation@,
{
}

/// The control plane of a daemon has the built-in limits and what the daemon was started
/// with, each under its own name.
pub proof fn what_the_control_plane_is_set_up_with<W>(
    config: BootstrapConfig<W>,
    process: ProcessFacts,
    r: ControlHandler,
    i: int,
)
    requires
        call_ensures(control_handler::<W>, (config, process), r),
    ensures
        r.route_bind_breaker.threshold == 3,
        r.route_bind_breaker.cooldown@ == 20 * 1_000_000_000,
        r.health_probe_timeout@ == 5 * 1_000_000_000,
        config.route_bind_relay_default_ms is None ==> r.route_bind_relay_timeout@ == 12
            * 1_000_000_000,
        config.route_bind_relay_default_ms matches Some(ms) ==> r.route_bind_relay_timeout@ == ms
            * 1_000_000,
        r.storage_config == config.storage_config,
        r.admission_facts.carrier_module_id == config.admission_facts_carrier_module_id,
        r.admission_facts.targets == config.admission_facts_targets,
        r.reserved_capabilities == config.reserved_capabilities,
        r.capability_modules@.len() == config.configured_modules@.len(),
        0 <= i < config.configured_modules@.len() ==> r.capability_modules@[i].0@
            == config.configured_modules@[i].module_id@ && r.capability_modules@[i].1
            == config.configured_modules@[i].enabled,
        r.daemon_provenance.pid == Some(process.pid),
        r.daemon_provenance.started_at_ms == Some(process.started_at_ms),
        r.daemon_provenance.executable_path == process.executable_path,
        r.daemon_provenance.build_git_sha == process.build_git_sha,
        r.daemon_provenance.build_lock_digest == process.build_lock_digest,
        config.daemon_config_path is None ==> r.rescan is None,
        config.daemon_config_path matches Some(path) ==> r.rescan is Some
            && r.rescan->0.config_path@ == path@ && r.rescan->0.configured_port
            == config.configured_port && r.rescan->0.windows == process.windows,
{
    let listed = switch_views(r.capability_modules@);
    let wanted = enabled_modules(module_views(config.configured_modules@));
    assert(listed.len() == r.capability_modules@.len());
    assert(wanted.len() == config.configured_modules@.len());
    if 0 <= i < config.configured_modules@.len() {
        assert(listed[i] == (r.capability_modules@[i].0@, r.capability_modules@[i].1));
        assert(module_views(config.configured_modules@)[i] == config.configured_modules@[i]@);
        assert(wanted[i] == (
            config.configured_modules@[i].module_id@,
            config.configured_modules@[i].enabled,
        ));
    }
}

/// What later readings of the file are compared with is what the daemon was started with.
pub proof fn what_later_files_are_compared_with<W>(
    config: BootstrapConfig<W>,
    process: ProcessFacts,
    r: ControlHandler,
)
    requires
        call_ensures(control_handler::<W>, (config, process), r),
        config.daemon_config_path is Some,
    ensures
        r.rescan is Some,
        r.rescan->0.storage_config is Some <==> config.storage_config is Some,
        config.storage_config matches Some(StorageConfig::Sqlite { data_home }) ==> (
        r.rescan->0.storage_config matches Some(StorageConfig::Sqlite { data_home: kept })
            && kept@ == data_home@),
        r.rescan->0.admission_facts_carrier_module_id is Some
            <==> config.admission_facts_carrier_module_id is Some,
        config.admission_facts_carrier_module_id matches Some(id)
            ==> r.rescan->0.admission_facts_carrier_module_id->0@ == id@,
        r.rescan->0.admission_facts_targets is Some <==> config.admission_facts_targets is Some,
        config.admission_facts_targets matches Some(targets) ==> texts(
            r.rescan->0.admission_facts_targets->0@,
        ) == texts(targets@),
{
}

proof fn a_module_has_its_own_budget(modules: Seq<ConfiguredModule>, i: int, id: Seq<char>)
    ensures
        (forall|k: int| 0 <= k < modules.len() ==> (#[trigger] modules[k]).module_id@ != id)
            ==> !module_budgets(modules).dom().contains(id),
        0 <= i < modules.len() && modules[i].module_id@ == id && (forall|k: int|
            0 <= k < modules.len() && k != i ==> (#[trigger] modules[k]).module_id@ != id) ==> {
            &&& modules[i].route_bind_relay_timeout_ms is None ==> !module_budgets(
                modules,
            ).dom().contains(id)
            &&& modules[i].route_bind_relay_timeout_ms matches Some(ms) ==> module_budgets(
                modules,
            ).dom().contains(id) && module_budgets(modules)[id] == ms * 1_000_000
        },
    decreases modules.len(),
{
    if modules.len() > 0 {
        let rest = modules.drop_last();
        let last = modules.len() - 1;
        a_module_has_its_own_budget(rest, i, id);
        assert forall|k: int| 0 <= k < last implies rest[k] == #[trigger] modules[k] by {}
        if forall|k: int| 0 <= k < modules.len() ==> (#[trigger] modules[k]).module_id@ != id {
            assert forall|k: int| 0 <= k < rest.len() implies (#[trigger] rest[k]).module_id@
                != id by {
                assert(rest[k] == modules[k]);
            }
            assert(modules[last].module_id@ != id);
        }
        if 0 <= i < modules.len() && modules[i].module_id@ == id && (forall|k: int|
            0 <= k < modules.len() && k != i ==> (#[trigger] modules[k]).module_id@ != id) {
            if i < last {
                assert(rest[i] == modules[i]);
                assert forall|k: int| 0 <= k < rest.len() && k != i implies (
                #[trigger] rest[k]).module_id@ != id by {
                    assert(rest[k] == modules[k]);
                }
                assert(modules[last].module_id@ != id);
            } else {
                assert forall|k: int| 0 <= k < rest.len() implies (#[trigger] rest[k]).module_id@
                    != id by {
                    assert(rest[k] == modules[k]);
                }
            }
        }
    }
}

/// A bind to a module may take as long as the module's own record says, else as long as
/// the file says for all, else twelve seconds.
pub proof fn how_long_a_bind_may_take<W>(
    config: BootstrapConfig<W>,
    process: ProcessFacts,
    handler: ControlHandler,
    module_id: &str,
    r: Span,
    i: int,
)
    requires
        call_ensures(control_handler::<W>, (config, process), handler),
        call_ensures(ControlHandler::route_bind_relay_timeout_for, (&handler, module_id), r),
        0 <= i < config.configured_modules@.len(),
        config.configured_modules@[i].module_id@ == module_id@,
        forall|k: int|
            0 <= k < config.configured_modules@.len() && k != i ==> (
            #[trigger] config.configured_modules@[k]).module_id@ != module_id@,
    ensures
        config.configured_modules@[i].route_bind_relay_timeout_ms matches Some(ms) ==> r@ == ms
            * 1_000_000,
        config.configured_modules@[i].route_bind_relay_timeout_ms is None ==> (
        config.route_bind_relay_default_ms matches Some(ms) ==> r@ == ms * 1_000_000) && (
        config.route_bind_relay_default_ms is None ==> r@ == 12 * 1_000_000_000),
{
    a_module_has_its_own_budget(config.configured_modules@, i, module_id@);
    let kept = handler.route_bind_relay_timeouts@;
    let nanos = in_nanos(kept);
    assert(nanos == module_budgets(config.configured_modules@));
    assert(nanos.dom().contains(module_id@) <==> kept.dom().contains(module_id@));
    if kept.dom().contains(module_id@) {
        assert(nanos[module_id@] == kept[module_id@]@);
    }
}

/// A setting of the control plane is set under its own name and leaves the others alone;
/// a breaker takes one timeout at the least.
pub proof fn each_setting_of_the_control_plane_is_its_own(
    base: ControlHandler,
    storage: Option<StorageConfig>,
    timeout: Span,
    threshold: u32,
    carrier: Option<String>,
    targets: Option<Vec<String>>,
    modules: Vec<(String, bool)>,
    reserved: Vec<(String, String)>,
)
    ensures
        forall|r: ControlHandler| #[trigger]
            call_ensures(ControlHandler::with_storage_config, (base, storage), r) ==> r == (
            ControlHandler { storage_config: storage, ..base }),
        forall|r: ControlHandler| #[trigger]
            call_ensures(ControlHandler::with_route_bind_relay_timeout, (base, timeout), r) ==> r
                == (ControlHandler { route_bind_relay_timeout: timeout, ..base }),
        forall|r: ControlHandler| #[trigger]
            call_ensures(ControlHandler::with_health_probe_timeout, (base, timeout), r) ==> r == (
            ControlHandler { health_probe_timeout: timeout, ..base }),
        forall|r: ControlHandler| #[trigger]
            call_ensures(
                ControlHandler::with_route_bind_breaker,
                (base, threshold, timeout),
                r,
            ) ==> r.route_bind_breaker.cooldown == timeout && (threshold == 0
                ==> r.route_bind_breaker.threshold == 1) && (threshold > 0
                ==> r.route_bind_breaker.threshold == threshold) && r.health_probe_timeout
                == base.health_probe_timeout && r.route_bind_relay_timeout
                == base.route_bind_relay_timeout,
        forall|r: ControlHandler| #[trigger]
            call_ensures(
                ControlHandler::with_admission_facts_config,
                (base, carrier, targets),
                r,
            ) ==> r.admission_facts.carrier_module_id == carrier && r.admission_facts.targets
                == targets && r.storage_config == base.storage_config,
        forall|r: ControlHandler| #[trigger]
            call_ensures(ControlHandler::with_capability_config, (base, modules, reserved), r)
                ==> r.capability_modules == modules && r.reserved_capabilities == reserved,
{
}

/// Where no connection is served only a ping, a HELLO and a GOODBYE have a handler; where
/// one is, a frame goes where every frame of its kind goes.
pub proof fn what_is_handled_without_a_connection(
    handler: &ControlHandler,
    ty: FrameType,
    r: ControlStep,
    registrations: Option<usize>,
    forwarding_cleared: bool,
    end: CleanupEnd,
)
    requires
        call_ensures(ControlHandler::handle_control, (handler, ty), r),
        call_ensures(
            ControlHandler::cleanup_connection,
            (handler, registrations, forwarding_cleared),
            end,
        ),
    ensures
        ty == FrameType::Ping ==> r is Pong,
        ty == FrameType::Hello ==> r is Hello,
        ty == FrameType::Goodbye ==> r is Goodbye,
        ty == FrameType::Request ==> (r matches ControlStep::Refused(e) && tells(
            e,
            "unsupported_control_frame"@,
            "unsupported channel-0 frame "@ + "Request"@,
        )),
        ty == FrameType::Cancel ==> (r matches ControlStep::Refused(e) && tells(
            e,
            "unsupported_control_frame"@,
            "unsupported channel-0 frame "@ + "Cancel"@,
        )),
        end.goodbyes == forwarding_cleared,
        end.release <==> registrations is Some && registrations->0 > 0,
{
}

/// A daemon first handles termination and raises its limits, then sweeps what a crash
/// left running, and only then serves. Then every configured module is supervised, in
/// order and as its record has it, and last the capabilities are looked at.
pub proof fn in_which_order_a_daemon_starts(
    live_children_path: &Option<String>,
    modules: &Vec<ConfiguredModule>,
    r: Vec<ServeStep>,
    i: int,
    started: ModuleSpec,
)
    requires
        call_ensures(serve_steps, (live_children_path, modules), r),
    ensures
        ({
            let swept: int = if live_children_path is Some {
                1
            } else {
                0
            };
            let n = modules@.len() as int;
            &&& r@.len() == 7 + swept + n
            &&& r@[0] is HandleTermination
            &&& r@[1] is RaiseOpenFiles
            &&& live_children_path matches Some(path) ==> (
            r@[2] matches ServeStep::SweepOrphans { path: at } && at@ == path@)
            &&& r@[2 + swept] is ServeListeners
            &&& r@[3 + swept] is WatchClock
            &&& r@[4 + swept] is StartWatchdog
            &&& r@[5 + swept + n] is RefreshCapabilities
            &&& r@[6 + swept + n] is WatchDeadlines
            &&& 0 <= i < n && call_ensures(
                ConfiguredModule::module_spec,
                (&modules@[i],),
                started,
            ) ==> (r@[5 + swept + i] matches ServeStep::Supervise {
                spec,
                enabled,
                health,
                drain_timeout_ms,
                restart,
            } && is_start_of(spec, modules@[i], started.env@) && enabled == modules@[i].enabled
                && drain_timeout_ms == modules@[i].drain_timeout_ms && health.cadence@
                == modules@[i].health.cadence@ && health.deadline@ == modules@[i].health.deadline@
                && health.failure_threshold == modules@[i].health.failure_threshold
                && health.on_degraded == modules@[i].health.on_degraded && health.on_failing
                == modules@[i].health.on_failing && health.critical == modules@[i].health.critical
                && restart.max_restarts == modules@[i].restart.max_restarts && restart.backoff@
                == modules@[i].restart.backoff@ && restart.max_backoff@
                == modules@[i].restart.max_backoff@ && restart.window@
                == modules@[i].restart.window@)
        }),
{
    let live = text_option(*live_children_path);
    let all = start_steps(live, module_views(modules@));
    let first = first_steps(live);
    let n = modules@.len() as int;
    let swept: int = if live_children_path is Some {
        1
    } else {
        0
    };
    assert(step_views(r@) == all);
    assert(step_views(r@).len() == r@.len());
    assert(first.len() == 5 + swept);
    assert(supervisions(module_views(modules@)).len() == n);
    assert forall|k: int| 0 <= k < r@.len() implies all[k] == (#[trigger] r@[k])@ by {
        assert(step_views(r@)[k] == r@[k]@);
    }
    assert(all[0] == first[0] && all[1] == first[1] && all[2] == first[2]);
    assert(all[2 + swept] == first[2 + swept]);
    assert(all[3 + swept] == first[3 + swept]);
    assert(all[4 + swept] == first[4 + swept]);
    if 0 <= i < n && call_ensures(ConfiguredModule::module_spec, (&modules@[i],), started) {
        let m = modules@[i];
        assert(all[5 + swept + i] == supervisions(module_views(modules@))[i]);
        assert(module_views(modules@)[i] == m@);
        let spec = r@[5 + swept + i]->Supervise_spec;
        assert(r@[5 + swept + i] is Supervise);
        assert(spec@ == spec_of(m@));
        assert(started@ == spec_of(m@));
        lists_differ_by_their_texts(spec.args@, m.args@);
        lists_differ_by_their_texts(spec.reserved_prefixes@, m.reserved_prefixes@);
        variables_differ_by_their_texts(spec.env@, started.env@);
    }
}

/// A start goes on past every step that fails but one: a daemon that cannot be told to
/// end does not start.
pub proof fn which_failure_ends_a_start(
    steps: &Vec<ServeStep>,
    taken: usize,
    outcome: Result<(), String>,
    r: ServeNext,
)
    requires
        call_ensures(serve_next, (steps, taken, outcome), r),
        taken < steps@.len(),
    ensures
        steps@[taken as int] is HandleTermination ==> (outcome matches Err(text) ==> r
            == ServeNext::Failed(BootstrapError::Signal(text))),
        !(steps@[taken as int] is HandleTermination) || outcome is Ok ==> (taken + 1
            < steps@.len() ==> r == ServeNext::Take((taken + 1) as usize)) && (taken + 1
            == steps@.len() ==> r is Run),
{
}

/// A daemon that is told to end stops serving and drains; told again while it drains, it
/// ends its modules at once; drained, it ends them in their time. When they are gone, so
/// is it.
pub proof fn how_a_daemon_ends(state: Running, event: RunEvent, r: (Running, Vec<RunAction>))
    requires
        call_ensures(run_next, (state, event), r),
    ensures
        state is Serving ==> (event matches RunEvent::ServerEnded(end) ==> r.0 == Running::Ended(end)
            && r.1@.len() == 0),
        state is Serving && event is Terminate ==> r.0 is Draining && r.1@ == seq![
            RunAction::BeginShutdown,
            RunAction::StopWatchdog,
            RunAction::CloseListeners,
            RunAction::Drain,
        ],
        state is Draining && event is Terminate ==> r.0 == (Running::EndingChildren {
            at_once: true,
        }) && r.1@ == seq![RunAction::EndChildren { at_once: true }],
        state is Draining && event is Drained ==> r.0 == (Running::EndingChildren {
            at_once: false,
        }) && r.1@ == seq![RunAction::EndChildren { at_once: false }],
        state is EndingChildren && event is ChildrenEnded ==> r.0 == Running::Ended(Ok(()))
            && r.1@.len() == 0,
        state is Ended ==> r.0 == state && r.1@.len() == 0,
        state is EndingChildren && !(event is ChildrenEnded) ==> r.0 == state && r.1@.len() == 0,
        state is Serving && (event is Drained || event is ChildrenEnded) ==> r.0 == state
            && r.1@.len() == 0,
        state is Draining && (event is ServerEnded || event is ChildrenEnded) ==> r.0 == state
            && r.1@.len() == 0,
{
}

/// What the control plane knows of its own process is what it was told, each thing in its
/// place.
pub proof fn what_the_daemon_knows_of_itself(
    base: ControlHandler,
    pid: u32,
    started_at_ms: u64,
    executable_path: Option<String>,
    build_git_sha: Option<String>,
    build_lock_digest: Option<String>,
    r: ControlHandler,
)
    requires
        call_ensures(
            ControlHandler::with_daemon_provenance,
            (base, pid, started_at_ms, executable_path, build_git_sha, build_lock_digest),
            r,
        ),
    ensures
        r.daemon_provenance.pid == Some(pid),
        r.daemon_provenance.started_at_ms == Some(started_at_ms),
        r.daemon_provenance.executable_path == executable_path,
        r.daemon_provenance.build_git_sha == build_git_sha,
        r.daemon_provenance.build_lock_digest == build_lock_digest,
        r.storage_config == base.storage_config,
{
}

/// A rescan is compared with the file, the port, the storage and the admission facts that
/// the control plane has by then.
pub proof fn what_a_rescan_is_compared_with(
    base: ControlHandler,
    config_path: &str,
    configured_port: Option<u16>,
    windows: bool,
    r: ControlHandler,
)
    requires
        call_ensures(
            ControlHandler::with_supervisor_rescan,
            (base, config_path, configured_port, windows),
            r,
        ),
    ensures
        r.rescan is Some,
        r.rescan->0.config_path@ == config_path@,
        r.rescan->0.configured_port == configured_port,
        r.rescan->0.windows == windows,
        r.rescan->0.storage_config is Some <==> base.storage_config is Some,
        r.rescan->0.admission_facts_targets is Some <==> base.admission_facts.targets is Some,
        base.admission_facts.targets matches Some(targets) ==> texts(
            r.rescan->0.admission_facts_targets->0@,
        ) == texts(targets@),
        base.admission_facts.carrier_module_id matches Some(id)
            ==> r.rescan->0.admission_facts_carrier_module_id is Some
            && r.rescan->0.admission_facts_carrier_module_id->0@ == id@,
        r.storage_config == base.storage_config,
        r.admission_facts == base.admission_facts,
{
}

/// A fresh control plane has the built-in limits and nothing configured.
pub proof fn a_fresh_control_plane_is_bare(r: ControlHandler)
    requires
        call_ensures(ControlHandler::new, (), r),
    ensures
        r.route_bind_relay_timeout@ == 12 * 1_000_000_000,
        r.route_bind_breaker.threshold == 3,
        r.route_bind_breaker.cooldown@ == 20 * 1_000_000_000,
        r.health_probe_timeout@ == 5 * 1_000_000_000,
        r.storage_config is None,
        r.admission_facts.carrier_module_id is None,
        r.admission_facts.targets is None,
        r.rescan is None,
        r.capability_modules@.len() == 0,
        r.reserved_capabilities@.len() == 0,
        r.daemon_provenance.pid is None,
{
}

proof fn the_last_budget_counts(list: Seq<(String, Span)>, i: int, id: Seq<char>)
    ensures
        0 <= i < list.len() && list[i].0@ == id && (forall|k: int|
            i < k < list.len() ==> (#[trigger] list[k]).0@ != id) ==> budgets(
            list,
        ).dom().contains(id) && budgets(list)[id] == list[i].1,
        (forall|k: int| 0 <= k < list.len() ==> (#[trigger] list[k]).0@ != id) ==> !budgets(
            list,
        ).dom().contains(id),
    decreases list.len(),
{
    if list.len() > 0 {
        let rest = list.drop_last();
        let last = list.len() - 1;
        the_last_budget_counts(rest, i, id);
        assert forall|k: int| 0 <= k < last implies rest[k] == #[trigger] list[k] by {}
        if 0 <= i < last && list[i].0@ == id && (forall|k: int|
            i < k < list.len() ==> (#[trigger] list[k]).0@ != id) {
            assert(rest[i] == list[i]);
            assert forall|k: int| i < k < rest.len() implies (#[trigger] rest[k]).0@ != id by {
                assert(rest[k] == list[k]);
            }
            assert(list[last].0@ != id);
        }
        if forall|k: int| 0 <= k < list.len() ==> (#[trigger] list[k]).0@ != id {
            assert forall|k: int| 0 <= k < rest.len() implies (#[trigger] rest[k]).0@ != id by {
                assert(rest[k] == list[k]);
            }
            assert(list[last].0@ != id);
        }
    }
}

/// Of the budgets that are set the last of each id counts; a module that has none takes
/// the one for all.
pub proof fn the_last_budget_of_a_module_counts(
    base: ControlHandler,
    timeouts: &Vec<(String, Span)>,
    handler: ControlHandler,
    module_id: &str,
    r: Span,
    i: int,
)
    requires
        call_ensures(
            ControlHandler::with_route_bind_relay_timeouts,
            (base, timeouts),
            handler,
        ),
        call_ensures(ControlHandler::route_bind_relay_timeout_for, (&handler, module_id), r),
    ensures
        0 <= i < timeouts@.len() && timeouts@[i].0@ == module_id@ && (forall|k: int|
            i < k < timeouts@.len() ==> (#[trigger] timeouts@[k]).0@ != module_id@) ==> r
            == timeouts@[i].1,
        (forall|k: int|
            0 <= k < timeouts@.len() ==> (#[trigger] timeouts@[k]).0@ != module_id@) ==> r
            == base.route_bind_relay_timeout,
{
    the_last_budget_counts(timeouts@, i, module_id@);
}

} // verus!
