//! Serving: what is set up before the first connection, and how the daemon ends.
use crate::bootstrap::config::BootstrapConfig;
use crate::bootstrap::error::BootstrapError;
use crate::bootstrap::CgroupPlacementConfig;
use crate::control::breaker::{
    DEFAULT_ROUTE_BIND_BREAKER_COOLDOWN_SECS, DEFAULT_ROUTE_BIND_BREAKER_THRESHOLD,
};
use crate::control::handler::{
    budgets, ControlHandler, DaemonProvenance, DEFAULT_ROUTE_BIND_RELAY_TIMEOUT_SECS,
};
use crate::control::health_probe::DEFAULT_HEALTH_PROBE_TIMEOUT_SECS;
use crate::control::hello::subc_capability_names;
use crate::daemon_config::document::storage_home;
use crate::daemon_config::module::{
    enabled_modules, module_views, spec_of, switch_views, switches, ConfiguredModule, ModuleSpec,
    ModuleSpecView, ModuleView,
};
use crate::daemon_config::policy::{HealthConfig, HealthView, RestartPolicy, RestartView};
use crate::daemon_config::validate::text_list;
use crate::span::{Span, NANOS_PER_MILLI, NANOS_PER_SEC};
use crate::text::{copy_option, digit, text_option, texts};
use vstd::prelude::*;

verus! {

/// How many files the daemon and its modules may hold open, as far as the system
/// lets them.
pub const NOFILE_TARGET: u64 = 65536;

/// The soft limit that is set in place of `soft`, below the hard limit, or nothing
/// where the soft limit is high enough.
pub fn nofile_raise(soft: u64, hard: u64) -> (r: Option<u64>)
    ensures
        r == if soft >= NOFILE_TARGET {
            None
        } else if NOFILE_TARGET <= hard {
            Some(NOFILE_TARGET)
        } else {
            Some(hard)
        },
{
    if soft >= NOFILE_TARGET {
        None
    } else if NOFILE_TARGET <= hard {
        Some(NOFILE_TARGET)
    } else {
        Some(hard)
    }
}

/// How many streams the C runtime of Windows is to hold open.
pub const MAXSTDIO_TARGET: u32 = 8192;

/// The number of streams that is asked for in place of `current`, or nothing where it
/// is high enough.
pub fn maxstdio_raise(current: u32) -> (r: Option<u32>)
    ensures
        r == if current >= MAXSTDIO_TARGET {
            None
        } else {
            Some(MAXSTDIO_TARGET)
        },
{
    if current >= MAXSTDIO_TARGET {
        None
    } else {
        Some(MAXSTDIO_TARGET)
    }
}

/// A hexadecimal digit.
pub open spec fn hex_digit(d: nat) -> char {
    if d < 10 {
        digit(d)
    } else if d == 10 {
        'a'
    } else if d == 11 {
        'b'
    } else if d == 12 {
        'c'
    } else if d == 13 {
        'd'
    } else if d == 14 {
        'e'
    } else {
        'f'
    }
}

/// Bytes in hexadecimal, two digits for each.
pub open spec fn hex(bytes: Seq<u8>) -> Seq<char>
    decreases bytes.len(),
{
    if bytes.len() == 0 {
        Seq::empty()
    } else {
        hex(bytes.drop_last()).push(hex_digit((bytes.last() / 16) as nat)).push(
            hex_digit((bytes.last() % 16) as nat),
        )
    }
}

fn hex_text(d: u8) -> (r: &'static str)
    requires
        d < 16,
    ensures
        r@ == seq![hex_digit(d as nat)],
{
    proof {
        reveal_strlit("0");
        reveal_strlit("1");
        reveal_strlit("2");
        reveal_strlit("3");
        reveal_strlit("4");
        reveal_strlit("5");
        reveal_strlit("6");
        reveal_strlit("7");
        reveal_strlit("8");
        reveal_strlit("9");
        reveal_strlit("a");
        reveal_strlit("b");
        reveal_strlit("c");
        reveal_strlit("d");
        reveal_strlit("e");
        reveal_strlit("f");
    }
    let r: &'static str = match d {
        0 => "0",
        1 => "1",
        2 => "2",
        3 => "3",
        4 => "4",
        5 => "5",
        6 => "6",
        7 => "7",
        8 => "8",
        9 => "9",
        10 => "a",
        11 => "b",
        12 => "c",
        13 => "d",
        14 => "e",
        _ => "f",
    };
    assert(r@ =~= seq![hex_digit(d as nat)]);
    r
}

/// The name of one run of the daemon: its id in hexadecimal.
pub fn daemon_incarnation(daemon_id: &[u8; 16]) -> (r: String)
    ensures
        r@ == hex(daemon_id@),
{
    let mut r: String = String::new();
    let mut i: usize = 0;
    while i < 16
        invariant
            i <= 16,
            r@ == hex(daemon_id@.take(i as int)),
        decreases 16 - i,
    {
        let byte: u8 = daemon_id[i];
        let ghost was = r@;
        r.append(hex_text(byte / 16));
        r.append(hex_text(byte % 16));
        proof {
            let now = daemon_id@.take(i + 1);
            assert(now.drop_last() =~= daemon_id@.take(i as int));
            assert(now.last() == byte);
            assert(r@ =~= was.push(hex_digit((byte / 16) as nat)).push(
                hex_digit((byte % 16) as nat),
            ));
        }
        i += 1;
    }
    proof {
        assert(daemon_id@.take(16) =~= daemon_id@);
    }
    r
}

/// The modules' own bind budgets.
pub open spec fn module_budgets(modules: Seq<ConfiguredModule>) -> Map<Seq<char>, nat>
    decreases modules.len(),
{
    if modules.len() == 0 {
        Map::empty()
    } else {
        let before = module_budgets(modules.drop_last());
        match modules.last().route_bind_relay_timeout_ms {
            Some(ms) => before.insert(modules.last().module_id@, (ms * NANOS_PER_MILLI) as nat),
            None => before,
        }
    }
}

/// The budgets in nanoseconds.
pub open spec fn in_nanos(m: Map<Seq<char>, Span>) -> Map<Seq<char>, nat> {
    m.map_values(|s: Span| s@)
}

/// The modules' own bind budgets, as a list.
pub fn relay_timeouts(modules: &Vec<ConfiguredModule>) -> (r: Vec<(String, Span)>)
    ensures
        in_nanos(budgets(r@)) == module_budgets(modules@),
{
    let mut r: Vec<(String, Span)> = Vec::new();
    let mut i: usize = 0;
    proof {
        assert(in_nanos(budgets(r@)) =~= Map::empty());
    }
    while i < modules.len()
        invariant
            i <= modules.len(),
            in_nanos(budgets(r@)) == module_budgets(modules@.take(i as int)),
        decreases modules.len() - i,
    {
        let ghost was = r@;
        proof {
            assert(modules@.take(i + 1).drop_last() =~= modules@.take(i as int));
            assert(modules@.take(i + 1).last() == modules@[i as int]);
        }
        if let Some(ms) = modules[i].route_bind_relay_timeout_ms {
            let span: Span = Span::from_millis(ms);
            r.push((modules[i].module_id.clone(), span));
            proof {
                assert(r@.drop_last() =~= was);
                assert(in_nanos(budgets(r@)) =~= in_nanos(budgets(was)).insert(
                    modules@[i as int].module_id@,
                    span@,
                ));
            }
        }
        i += 1;
    }
    proof {
        assert(modules@.take(i as int) =~= modules@);
    }
    r
}

/// How long a bind to a module may take under a set-up, in nanoseconds.
pub open spec fn budget_under(handler: ControlHandler, module_id: Seq<char>) -> nat {
    if handler.route_bind_relay_timeouts@.dom().contains(module_id) {
        handler.route_bind_relay_timeouts@[module_id]@
    } else {
        handler.route_bind_relay_timeout@
    }
}

/// The budgets of a set-up are those of the file.
pub open spec fn budgets_of_file<W>(handler: ControlHandler, config: BootstrapConfig<W>) -> bool {
    &&& in_nanos(handler.route_bind_relay_timeouts@) == module_budgets(config.configured_modules@)
    &&& handler.route_bind_relay_timeout@ == match config.route_bind_relay_default_ms {
        Some(ms) => ms * NANOS_PER_MILLI,
        None => DEFAULT_ROUTE_BIND_RELAY_TIMEOUT_SECS * NANOS_PER_SEC,
    }
}

/// What is known of the daemon that starts.
#[derive(Debug)]
pub struct ProcessFacts {
    /// The system is Windows.
    pub windows: bool,
    pub pid: u32,
    pub started_at_ms: u64,
    pub executable_path: Option<String>,
    pub build_git_sha: Option<String>,
    pub build_lock_digest: Option<String>,
}

/// Sets up the control plane of a daemon: a module's own bind budget wins over that
/// of the file, which wins over the built-in one, and only a daemon with a
/// configuration file can read it again.
pub fn control_handler<W>(config: BootstrapConfig<W>, process: ProcessFacts) -> (r: ControlHandler)
    ensures
        r.wf(),
        texts(r.subc_capabilities@) == subc_capability_names(),
        r.route_bind_breaker.threshold == DEFAULT_ROUTE_BIND_BREAKER_THRESHOLD,
        r.route_bind_breaker.cooldown@ == DEFAULT_ROUTE_BIND_BREAKER_COOLDOWN_SECS * NANOS_PER_SEC,
        r.health_probe_timeout@ == DEFAULT_HEALTH_PROBE_TIMEOUT_SECS * NANOS_PER_SEC,
        r.storage_config == config.storage_config,
        r.admission_facts.carrier_module_id == config.admission_facts_carrier_module_id,
        r.admission_facts.targets == config.admission_facts_targets,
        budgets_of_file(r, config),
        switch_views(r.capability_modules@) == enabled_modules(
            module_views(config.configured_modules@),
        ),
        r.reserved_capabilities == config.reserved_capabilities,
        r.daemon_provenance == (DaemonProvenance {
            pid: Some(process.pid),
            started_at_ms: Some(process.started_at_ms),
            executable_path: process.executable_path,
            build_git_sha: process.build_git_sha,
            build_lock_digest: process.build_lock_digest,
        }),
        r.rescan is Some <==> config.daemon_config_path is Some,
        r.rescan matches Some(context) ==> {
            &&& context.config_path@ == config.daemon_config_path->0@
            &&& context.configured_port == config.configured_port
            &&& context.windows == process.windows
            &&& storage_home(context.storage_config) == storage_home(config.storage_config)
            &&& text_option(context.admission_facts_carrier_module_id) == text_option(
                config.admission_facts_carrier_module_id,
            )
            &&& text_list(context.admission_facts_targets) == text_list(
                config.admission_facts_targets,
            )
        },
{
    let timeouts: Vec<(String, Span)> = relay_timeouts(&config.configured_modules);
    let modules: Vec<(String, bool)> = switches(&config.configured_modules);
    let mut handler: ControlHandler = ControlHandler::new().with_storage_config(
        config.storage_config,
    ).with_admission_facts_config(
        config.admission_facts_carrier_module_id,
        config.admission_facts_targets,
    ).with_route_bind_relay_timeouts(&timeouts).with_daemon_provenance(
        process.pid,
        process.started_at_ms,
        process.executable_path,
        process.build_git_sha,
        process.build_lock_digest,
    ).with_capability_config(modules, config.reserved_capabilities);
    if let Some(ms) = config.route_bind_relay_default_ms {
        handler = handler.with_route_bind_relay_timeout(Span::from_millis(ms));
    }
    if let Some(path) = config.daemon_config_path {
        handler = handler.with_supervisor_rescan(
            path.as_str(),
            config.configured_port,
            process.windows,
        );
    }
    handler
}

/// A bind to a module may take what the module's own entry says, else what the file
/// says, else the built-in time.
pub proof fn a_bind_takes_the_nearest_budget<W>(
    handler: ControlHandler,
    config: BootstrapConfig<W>,
    module_id: Seq<char>,
)
    requires
        budgets_of_file(handler, config),
    ensures
        budget_under(handler, module_id) == if module_budgets(
            config.configured_modules@,
        ).dom().contains(module_id) {
            module_budgets(config.configured_modules@)[module_id] as int
        } else {
            match config.route_bind_relay_default_ms {
                Some(ms) => ms * NANOS_PER_MILLI,
                None => DEFAULT_ROUTE_BIND_RELAY_TIMEOUT_SECS * NANOS_PER_SEC,
            }
        },
{
    let m = handler.route_bind_relay_timeouts@;
    assert(in_nanos(m).dom().contains(module_id) == m.dom().contains(module_id));
}

/// For how many seconds a module that does not answer passes as healthy, where
/// that is longer than by default. A disabled module is not spoken of.
pub fn relaxed_tolerance_secs(enabled: bool, health: &HealthConfig, default_threshold: u32) -> (r:
    Option<u128>)
    ensures
        r == if enabled && health.failure_threshold > default_threshold {
            Some(
                ((health.cadence@ / (NANOS_PER_SEC as nat)) * (
                health.failure_threshold as nat)) as u128,
            )
        } else {
            None
        },
{
    if enabled && health.failure_threshold > default_threshold {
        let secs: u64 = health.cadence.as_secs();
        proof {
            assert(secs * health.failure_threshold <= u64::MAX * u32::MAX) by (nonlinear_arith)
                requires
                    secs <= u64::MAX,
                    health.failure_threshold <= u32::MAX,
            ;
        }
        Some((secs as u128) * (health.failure_threshold as u128))
    } else {
        None
    }
}

/// Where module cgroups are prepared: nowhere where that is switched off, and
/// nowhere where the place that was asked for is not the daemon's to use. `P` is a
/// prepared place.
pub fn prepare_cgroup_placement<P>(
    config: &CgroupPlacementConfig,
    prepared: Result<Option<P>, String>,
) -> (r: Option<P>)
    ensures
        *config is Disabled ==> r is None,
        *config !is Disabled ==> r == (match prepared {
            Ok(place) => place,
            Err(_) => None,
        }),
{
    match config {
        CgroupPlacementConfig::Disabled => None,
        _ => match prepared {
            Ok(place) => place,
            Err(_) => None,
        },
    }
}

/// Where the ends of modules are noted.
#[derive(Debug)]
pub struct TerminalJournal {
    pub path: String,
    /// The run of the daemon that notes them.
    pub incarnation: String,
}

/// What the supervisor is set up with.
#[derive(Debug)]
pub struct SupervisorSetup {
    /// Where a module finds the daemon.
    pub connection_file_path: String,
    pub incarnation: String,
    /// Where the output of the modules goes. Absent means that it is not kept.
    pub capture_logs_dir: Option<String>,
    /// Absent means that the ends of modules are known to this run alone.
    pub journal: Option<TerminalJournal>,
    /// Where the running modules are noted for the daemon that comes after a crash.
    pub live_children_record: Option<String>,
}

/// What the supervisor is set up with: what the configuration names, and nothing in
/// place of what it does not name.
pub fn supervisor_setup<W>(config: &BootstrapConfig<W>, incarnation: &str) -> (r: SupervisorSetup)
    ensures
        r.connection_file_path@ == config.connection_file_path@,
        r.incarnation@ == incarnation@,
        text_option(r.capture_logs_dir) == text_option(config.capture_logs_dir),
        text_option(r.live_children_record) == text_option(config.live_children_path),
        r.journal is Some <==> config.terminal_journal_path is Some,
        r.journal matches Some(j) ==> j.path@ == config.terminal_journal_path->0@
            && j.incarnation@ == incarnation@,
{
    SupervisorSetup {
        connection_file_path: config.connection_file_path.clone(),
        incarnation: String::from_str(incarnation),
        capture_logs_dir: copy_option(&config.capture_logs_dir),
        journal: match &config.terminal_journal_path {
            Some(path) => Some(
                TerminalJournal { path: path.clone(), incarnation: String::from_str(incarnation) },
            ),
            None => None,
        },
        live_children_record: copy_option(&config.live_children_path),
    }
}

/// A step of the start. None is taken before those in front of it.
#[derive(Debug)]
pub enum ServeStep {
    /// From here on the daemon hears that it is to end.
    HandleTermination,
    RaiseOpenFiles,
    /// What a crashed daemon noted at the path as running is ended.
    SweepOrphans { path: String },
    ServeListeners,
    WatchClock,
    StartWatchdog,
    /// A module is handed to the supervisor.
    Supervise {
        spec: ModuleSpec,
        enabled: bool,
        health: HealthConfig,
        drain_timeout_ms: Option<u64>,
        restart: RestartPolicy,
    },
    RefreshCapabilities,
    /// From here on the requirements are looked at whenever one falls due.
    WatchDeadlines,
}

/// A [`ServeStep`] over characters.
#[verifier::ext_equal]
pub enum ServeStepView {
    HandleTermination,
    RaiseOpenFiles,
    SweepOrphans { path: Seq<char> },
    ServeListeners,
    WatchClock,
    StartWatchdog,
    Supervise {
        spec: ModuleSpecView,
        enabled: bool,
        health: HealthView,
        drain_timeout_ms: Option<u64>,
        restart: RestartView,
    },
    RefreshCapabilities,
    WatchDeadlines,
}

impl View for ServeStep {
    type V = ServeStepView;

    open spec fn view(&self) -> ServeStepView {
        match *self {
            ServeStep::HandleTermination => ServeStepView::HandleTermination,
            ServeStep::RaiseOpenFiles => ServeStepView::RaiseOpenFiles,
            ServeStep::SweepOrphans { path } => ServeStepView::SweepOrphans { path: path@ },
            ServeStep::ServeListeners => ServeStepView::ServeListeners,
            ServeStep::WatchClock => ServeStepView::WatchClock,
            ServeStep::StartWatchdog => ServeStepView::StartWatchdog,
            ServeStep::Supervise { spec, enabled, health, drain_timeout_ms, restart } =>
                ServeStepView::Supervise {
                spec: spec@,
                enabled,
                health: health@,
                drain_timeout_ms,
                restart: restart@,
            },
            ServeStep::RefreshCapabilities => ServeStepView::RefreshCapabilities,
            ServeStep::WatchDeadlines => ServeStepView::WatchDeadlines,
        }
    }
}

/// The steps over characters.
pub open spec fn step_views(steps: Seq<ServeStep>) -> Seq<ServeStepView> {
    steps.map_values(|s: ServeStep| s@)
}

/// The steps that are taken before any module is started.
pub open spec fn first_steps(live_children: Option<Seq<char>>) -> Seq<ServeStepView> {
    match live_children {
        Some(path) => seq![
            ServeStepView::HandleTermination,
            ServeStepView::RaiseOpenFiles,
            ServeStepView::SweepOrphans { path },
            ServeStepView::ServeListeners,
            ServeStepView::WatchClock,
            ServeStepView::StartWatchdog,
        ],
        None => seq![
            ServeStepView::HandleTermination,
            ServeStepView::RaiseOpenFiles,
            ServeStepView::ServeListeners,
            ServeStepView::WatchClock,
            ServeStepView::StartWatchdog,
        ],
    }
}

/// The step that hands a module to the supervisor.
pub open spec fn supervision_of(m: ModuleView) -> ServeStepView {
    ServeStepView::Supervise {
        spec: spec_of(m),
        enabled: m.enabled,
        health: m.health,
        drain_timeout_ms: m.drain_timeout_ms,
        restart: m.restart,
    }
}

/// The steps that hand the modules to the supervisor, in their order.
pub open spec fn supervisions(modules: Seq<ModuleView>) -> Seq<ServeStepView> {
    modules.map_values(|m: ModuleView| supervision_of(m))
}

/// All steps: what a crash left running is ended before anything can be started,
/// the modules are started in their order, and last the requirements are looked at.
pub open spec fn start_steps(live_children: Option<Seq<char>>, modules: Seq<ModuleView>) -> Seq<
    ServeStepView,
> {
    first_steps(live_children) + supervisions(modules) + seq![
        ServeStepView::RefreshCapabilities,
        ServeStepView::WatchDeadlines,
    ]
}

fn supervision(module: &ConfiguredModule) -> (r: ServeStep)
    ensures
        r@ == supervision_of(module@),
{
    ServeStep::Supervise {
        spec: module.module_spec(),
        enabled: module.enabled,
        health: module.health,
        drain_timeout_ms: module.drain_timeout_ms,
        restart: module.restart,
    }
}

/// Plans the start.
pub fn serve_steps(live_children_path: &Option<String>, modules: &Vec<ConfiguredModule>) -> (r: Vec<
    ServeStep,
>)
    ensures
        step_views(r@) == start_steps(text_option(*live_children_path), module_views(modules@)),
{
    let mut r: Vec<ServeStep> = Vec::new();
    r.push(ServeStep::HandleTermination);
    r.push(ServeStep::RaiseOpenFiles);
    if let Some(path) = live_children_path {
        r.push(ServeStep::SweepOrphans { path: path.clone() });
    }
    r.push(ServeStep::ServeListeners);
    r.push(ServeStep::WatchClock);
    r.push(ServeStep::StartWatchdog);
    let ghost first = first_steps(text_option(*live_children_path));
    let ghost all = supervisions(module_views(modules@));
    proof {
        assert(step_views(r@) =~= first);
    }
    let mut i: usize = 0;
    while i < modules.len()
        invariant
            i <= modules.len(),
            all == supervisions(module_views(modules@)),
            step_views(r@) =~= first + all.take(i as int),
        decreases modules.len() - i,
    {
        let ghost was = r@;
        r.push(supervision(&modules[i]));
        proof {
            assert(all[i as int] == supervision_of(modules@[i as int]@));
            assert(step_views(r@) =~= step_views(was).push(all[i as int]));
            assert(all.take(i + 1) =~= all.take(i as int).push(all[i as int]));
        }
        i += 1;
    }
    let ghost was = r@;
    r.push(ServeStep::RefreshCapabilities);
    r.push(ServeStep::WatchDeadlines);
    proof {
        assert(all.take(i as int) =~= all);
        assert(step_views(r@) =~= step_views(was).push(ServeStepView::RefreshCapabilities).push(
            ServeStepView::WatchDeadlines,
        ));
        assert(step_views(r@) =~= start_steps(
            text_option(*live_children_path),
            module_views(modules@),
        ));
    }
    r
}

/// What follows a step of the start.
#[derive(Debug)]
pub enum ServeNext {
    /// The step at this place is taken.
    Take(usize),
    /// All steps are taken.
    Run,
    /// The start has failed.
    Failed(BootstrapError),
}

/// The start goes on after a step. It does whatever fails, but for the first step: a
/// daemon that cannot be told to end does not start.
pub open spec fn goes_on(step: ServeStepView, failed: bool) -> bool {
    !(step is HandleTermination && failed)
}

/// Goes on after the step at `taken`.
pub fn serve_next(steps: &Vec<ServeStep>, taken: usize, outcome: Result<(), String>) -> (r:
    ServeNext)
    requires
        taken < steps@.len(),
    ensures
        r is Failed <==> !goes_on(steps@[taken as int]@, outcome is Err),
        r matches ServeNext::Failed(error) ==> error == BootstrapError::Signal(outcome->Err_0),
        r !is Failed ==> r == if taken + 1 < steps@.len() {
            ServeNext::Take((taken + 1) as usize)
        } else {
            ServeNext::Run
        },
{
    if let Err(error) = outcome {
        if let ServeStep::HandleTermination = &steps[taken] {
            return ServeNext::Failed(BootstrapError::Signal(error));
        }
    }
    if taken < steps.len() - 1 {
        ServeNext::Take(taken + 1)
    } else {
        ServeNext::Run
    }
}

/// What a crash left running is ended before the first connection is served and
/// before any module is started.
pub proof fn orphans_are_swept_first(path: Seq<char>, modules: Seq<ModuleView>, i: int)
    requires
        0 <= i < start_steps(Some(path), modules).len(),
        start_steps(Some(path), modules)[i] is Supervise || start_steps(Some(path), modules)[i]
            is ServeListeners,
    ensures
        i > 2,
        start_steps(Some(path), modules)[2] == (ServeStepView::SweepOrphans { path }),
{
}

/// Every configured module is handed to the supervisor once, in the order of the
/// configuration and as it is configured, and no other is; that one cannot be started
/// keeps none of the others from being started.
pub proof fn every_configured_module_is_started(
    live_children: Option<Seq<char>>,
    modules: Seq<ModuleView>,
    i: int,
    failed: bool,
)
    requires
        0 <= i < modules.len(),
    ensures
        ({
            let steps = start_steps(live_children, modules);
            let first = first_steps(live_children).len();
            &&& steps[first + i] == supervision_of(modules[i])
            &&& goes_on(steps[first + i], failed)
            &&& forall|j: int|
                0 <= j < steps.len() ==> (#[trigger] steps[j] is Supervise <==> first <= j < first
                    + modules.len())
        }),
{
    let steps = start_steps(live_children, modules);
    let first = first_steps(live_children);
    assert(steps[first.len() + i] == supervisions(modules)[i]);
    assert forall|j: int| 0 <= j < steps.len() implies (#[trigger] steps[j] is Supervise
        <==> first.len() <= j < first.len() + modules.len()) by {
        if j < first.len() {
            assert(steps[j] == first[j]);
        } else if j < first.len() + modules.len() {
            assert(steps[j] == supervisions(modules)[j - first.len()]);
        }
    }
}

/// How far the daemon is on its way from serving to its end.
#[derive(Debug)]
pub enum Running {
    Serving,
    /// It was told to end, and lets the modules finish what they do.
    Draining,
    /// The modules are ended, at once where it was told twice.
    EndingChildren { at_once: bool },
    Ended(Result<(), BootstrapError>),
}

/// What happens to a daemon that runs.
#[derive(Debug)]
pub enum RunEvent {
    /// The server ended by itself.
    ServerEnded(Result<(), BootstrapError>),
    /// The system told the daemon to end.
    Terminate,
    /// The modules finished, or could not be waited for.
    Drained,
    ChildrenEnded,
}

/// What the daemon does next, in this order.
#[derive(Clone, Copy, Debug, PartialEq, Eq, Structural)]
pub enum RunAction {
    /// From here on the end of a module is one of the daemon's, and is not made
    /// good.
    BeginShutdown,
    /// The watchdog would take a closed listener for a daemon that hangs.
    StopWatchdog,
    CloseListeners,
    Drain,
    EndChildren { at_once: bool },
}

/// Where an event leads.
pub open spec fn after_run_event(state: Running, event: RunEvent) -> Running {
    match (state, event) {
        (Running::Serving, RunEvent::ServerEnded(end)) => Running::Ended(end),
        (Running::Serving, RunEvent::Terminate) => Running::Draining,
        (Running::Draining, RunEvent::Terminate) => Running::EndingChildren { at_once: true },
        (Running::Draining, RunEvent::Drained) => Running::EndingChildren { at_once: false },
        (Running::EndingChildren { .. }, RunEvent::ChildrenEnded) => Running::Ended(Ok(())),
        (state, _) => state,
    }
}

/// What is done on an event.
pub open spec fn run_actions(state: Running, event: RunEvent) -> Seq<RunAction> {
    match (state, event) {
        (Running::Serving, RunEvent::Terminate) => seq![
            RunAction::BeginShutdown,
            RunAction::StopWatchdog,
            RunAction::CloseListeners,
            RunAction::Drain,
        ],
        (Running::Draining, RunEvent::Terminate) => seq![RunAction::EndChildren { at_once: true }],
        (Running::Draining, RunEvent::Drained) => seq![RunAction::EndChildren { at_once: false }],
        _ => Seq::empty(),
    }
}

/// Goes on after an event, and says what to do. An event that does not matter by
/// then changes nothing.
pub fn run_next(state: Running, event: RunEvent) -> (r: (Running, Vec<RunAction>))
    ensures
        r.0 == after_run_event(state, event),
        r.1@ == run_actions(state, event),
{
    let mut actions: Vec<RunAction> = Vec::new();
    let next: Running = match (state, event) {
        (Running::Serving, RunEvent::ServerEnded(end)) => Running::Ended(end),
        (Running::Serving, RunEvent::Terminate) => {
            actions.push(RunAction::BeginShutdown);
            actions.push(RunAction::StopWatchdog);
            actions.push(RunAction::CloseListeners);
            actions.push(RunAction::Drain);
            Running::Draining
        },
        (Running::Draining, RunEvent::Terminate) => {
            actions.push(RunAction::EndChildren { at_once: true });
            Running::EndingChildren { at_once: true }
        },
        (Running::Draining, RunEvent::Drained) => {
            actions.push(RunAction::EndChildren { at_once: false });
            Running::EndingChildren { at_once: false }
        },
        (Running::EndingChildren { .. }, RunEvent::ChildrenEnded) => Running::Ended(Ok(())),
        (state, _) => state,
    };
    (next, actions)
}

/// The state after some events.
pub open spec fn state_after(events: Seq<RunEvent>) -> Running
    decreases events.len(),
{
    if events.len() == 0 {
        Running::Serving
    } else {
        after_run_event(state_after(events.drop_last()), events.last())
    }
}

/// What was done on the last of some events.
pub open spec fn done_last(events: Seq<RunEvent>) -> Seq<RunAction> {
    run_actions(state_after(events.drop_last()), events.last())
}

/// A daemon that was told to end ends well, whatever the drain came to, and only
/// after it has ended its modules; they are ended at once exactly where it was
/// told a second time before the drain was over.
pub proof fn a_daemon_that_is_told_to_end_ends_its_modules(events: Seq<RunEvent>)
    ensures
        state_after(events) matches Running::EndingChildren { at_once } ==> exists|k: int|
            0 <= k < events.len() && #[trigger] done_last(events.take(k + 1)) == seq![
                RunAction::EndChildren { at_once },
            ],
        state_after(events) matches Running::Ended(end) ==> {
            ||| exists|k: int|
                0 <= k < events.len() && #[trigger] events[k] == RunEvent::ServerEnded(end)
            ||| exists|k: int, at_once: bool|
                0 <= k < events.len() && #[trigger] ends_children(events.take(k + 1), at_once)
        },
    decreases events.len(),
{
    if events.len() > 0 {
        let before = events.drop_last();
        let last = events.len() - 1;
        a_daemon_that_is_told_to_end_ends_its_modules(before);
        assert(events.take(last + 1) =~= events);
        let was = state_after(before);
        let now = state_after(events);
        if now is EndingChildren {
            let at_once = now->at_once;
            if was is EndingChildren {
                let k = choose|k: int|
                    0 <= k < before.len() && #[trigger] done_last(before.take(k + 1)) == seq![
                        RunAction::EndChildren { at_once },
                    ];
                assert(events.take(k + 1) =~= before.take(k + 1));
                assert(done_last(events.take(k + 1)) == seq![RunAction::EndChildren { at_once }]);
            } else {
                assert(done_last(events.take(last + 1)) == seq![
                    RunAction::EndChildren { at_once },
                ]);
            }
        }
        if now is Ended {
            if was is Ended {
                let end = now->Ended_0;
                if exists|k: int|
                    0 <= k < before.len() && #[trigger] before[k] == RunEvent::ServerEnded(end) {
                    let k = choose|k: int|
                        0 <= k < before.len() && #[trigger] before[k] == RunEvent::ServerEnded(end);
                    assert(events[k] == RunEvent::ServerEnded(end));
                } else {
                    let (k, at_once) = choose|k: int, at_once: bool|
                        0 <= k < before.len() && #[trigger] ends_children(
                            before.take(k + 1),
                            at_once,
                        );
                    assert(events.take(k + 1) =~= before.take(k + 1));
                    assert(ends_children(events.take(k + 1), at_once));
                }
            } else if was is EndingChildren {
                let at_once = was->at_once;
                let k = choose|k: int|
                    0 <= k < before.len() && #[trigger] done_last(before.take(k + 1)) == seq![
                        RunAction::EndChildren { at_once },
                    ];
                assert(events.take(k + 1) =~= before.take(k + 1));
                assert(ends_children(events.take(k + 1), at_once));
            } else {
                assert(events[last] == RunEvent::ServerEnded(now->Ended_0));
            }
        }
    }
}

/// The last of some events is the one on which the modules are ended.
pub open spec fn ends_children(events: Seq<RunEvent>, at_once: bool) -> bool {
    done_last(events) == seq![RunAction::EndChildren { at_once }]
}

} // verus!
