//! What clients are told of the supervised modules, and of what they ask of
//! them.
pub mod laws;

use crate::control::fault::{backend, backend_fault, FaultView, RouterError};
use crate::control::health_probe::{append_capability_problem_detail, with_problem};
use crate::control::manifest::CapabilityNeed;
use crate::control::wire::{
    about, control_error, control_error_with_field, error_of, DetailView, ErrorBody, ErrorDetail,
    ErrorView,
};
use crate::daemon_config::ModuleProtocol;
use crate::span::{Span, NANOS_PER_MILLI, NANOS_PER_SEC};
use crate::text::{bool_text, bool_word, text_option};
use vstd::prelude::*;

verus! {

/// What is told of a module that is not supervised.
pub open spec fn not_supervised(module_id: Seq<char>) -> ErrorView {
    error_of("unknown_module"@, "module_id '"@ + module_id + "' is not supervised"@)
}

/// Refuses what is asked of a module that is not supervised.
pub fn supervised_gate(module_id: &str, supervised: bool) -> (r: Option<ErrorBody>)
    ensures
        r is None <==> supervised,
        r matches Some(e) ==> e@ == not_supervised(module_id@),
{
    if supervised {
        None
    } else {
        Some(
            control_error(
                "unknown_module",
                about("module_id '", module_id, "' is not supervised"),
            ),
        )
    }
}

/// What the supervisor holds of one module.
#[derive(Debug)]
pub struct OfModule<T> {
    pub module_id: String,
    pub held: T,
}

/// Answers a question about one module with what the supervisor holds of it,
/// which is nothing where it does not supervise it. Its ends are asked for so.
pub fn supervised_answer<T>(module_id: String, held: Option<T>) -> (r: Result<
    OfModule<T>,
    ErrorBody,
>)
    ensures
        match held {
            Some(held) => r == Ok::<_, ErrorBody>(OfModule { module_id, held }),
            None => r matches Err(e) && e@ == not_supervised(module_id@),
        },
{
    match held {
        Some(held) => Ok(OfModule { module_id, held }),
        None => Err(
            control_error(
                "unknown_module",
                about("module_id '", module_id.as_str(), "' is not supervised"),
            ),
        ),
    }
}

/// How much of a module's standard error is captured.
#[derive(Debug)]
pub enum CaptureState {
    Captured,
    Incomplete { reason: String },
    NotCaptured { reason: String },
}

/// What is kept of a module's standard error.
#[derive(Debug)]
pub enum TailEntry {
    Line { text: String, truncated: bool },
    /// A process of the module started here.
    ProcessStart,
}

/// The end of a module's standard error, as the supervisor holds it.
#[derive(Debug)]
pub struct TailSnapshot {
    pub capture: CaptureState,
    pub entries: Vec<TailEntry>,
    /// How many lines were dropped in front of the entries.
    pub dropped_lines: u64,
}

/// How much of a module's standard error is captured, as a client is told.
#[derive(Debug)]
pub enum StderrCaptureState {
    Captured,
    Incomplete { reason: String },
    NotCaptured { reason: String },
}

/// What is kept of a module's standard error, as a client is told.
#[derive(Debug)]
pub enum StderrTailEntry {
    Line { text: String, truncated: bool },
    ProcessStart,
}

/// The end of a module's standard error, as a client is told.
#[derive(Debug)]
pub struct StderrTail {
    pub capture: StderrCaptureState,
    pub entries: Vec<StderrTailEntry>,
    pub dropped_lines: u64,
}

/// What a client is told of the capture.
pub open spec fn told_capture(capture: CaptureState) -> StderrCaptureState {
    match capture {
        CaptureState::Captured => StderrCaptureState::Captured,
        CaptureState::Incomplete { reason } => StderrCaptureState::Incomplete { reason },
        CaptureState::NotCaptured { reason } => StderrCaptureState::NotCaptured { reason },
    }
}

/// What a client is told of an entry.
pub open spec fn told_entry(entry: TailEntry) -> StderrTailEntry {
    match entry {
        TailEntry::Line { text, truncated } => StderrTailEntry::Line { text, truncated },
        TailEntry::ProcessStart => StderrTailEntry::ProcessStart,
    }
}

/// What a client is told of the entries, in their order.
pub open spec fn told_entries(entries: Seq<TailEntry>) -> Seq<StderrTailEntry> {
    entries.map_values(|e: TailEntry| told_entry(e))
}

fn tell_entries(entries: Vec<TailEntry>) -> (r: Vec<StderrTailEntry>)
    ensures
        r@ == told_entries(entries@),
{
    let ghost all = entries@;
    let mut rest: Vec<TailEntry> = entries;
    let mut r: Vec<StderrTailEntry> = Vec::new();
    let ghost mut i: int = 0;
    proof {
        assert(all.skip(0) =~= all);
    }
    while rest.len() > 0
        invariant
            0 <= i <= all.len(),
            rest@ == all.skip(i),
            r@ =~= told_entries(all).take(i),
        decreases rest.len(),
    {
        let entry: TailEntry = rest.remove(0);
        let told: StderrTailEntry = match entry {
            TailEntry::Line { text, truncated } => StderrTailEntry::Line { text, truncated },
            TailEntry::ProcessStart => StderrTailEntry::ProcessStart,
        };
        r.push(told);
        proof {
            assert(told == told_entries(all)[i]);
            assert(told_entries(all).take(i + 1) =~= told_entries(all).take(i).push(told));
            assert(rest@ =~= all.skip(i + 1));
            i = i + 1;
        }
    }
    proof {
        assert(told_entries(all).take(i) =~= told_entries(all));
    }
    r
}

/// Answers a question about the end of a module's standard error.
pub fn stderr_tail_answer(module_id: String, tail: Option<TailSnapshot>) -> (r: Result<
    OfModule<StderrTail>,
    ErrorBody,
>)
    ensures
        match tail {
            Some(tail) => r matches Ok(answer) && {
                &&& answer.module_id == module_id
                &&& answer.held.capture == told_capture(tail.capture)
                &&& answer.held.entries@ == told_entries(tail.entries@)
                &&& answer.held.dropped_lines == tail.dropped_lines
            },
            None => r matches Err(e) && e@ == not_supervised(module_id@),
        },
{
    let tail: Option<StderrTail> = match tail {
        Some(tail) => Some(
            StderrTail {
                capture: match tail.capture {
                    CaptureState::Captured => StderrCaptureState::Captured,
                    CaptureState::Incomplete { reason } => StderrCaptureState::Incomplete {
                        reason,
                    },
                    CaptureState::NotCaptured { reason } => StderrCaptureState::NotCaptured {
                        reason,
                    },
                },
                entries: tell_entries(tail.entries),
                dropped_lines: tail.dropped_lines,
            },
        ),
        None => None,
    };
    supervised_answer(module_id, tail)
}

/// Why the supervisor did not do what it was asked.
#[derive(Debug)]
pub enum SuperviseFailure {
    /// The module is disabled.
    Disabled(String),
    Other(String),
}

/// That the supervisor did what it was asked.
#[derive(Debug)]
pub struct SupervisorAck {
    pub module_id: String,
    pub applied: bool,
}

/// What is told of a failure.
pub open spec fn failure_of(
    failure: SuperviseFailure,
    code: Seq<char>,
    verb: Seq<char>,
    module_id: Seq<char>,
) -> ErrorView {
    match failure {
        SuperviseFailure::Disabled(text) => error_of("module_disabled"@, text@),
        SuperviseFailure::Other(text) => error_of(
            code,
            "failed to "@ + verb + " module_id '"@ + module_id + "': "@ + text@,
        ),
    }
}

fn acknowledge(
    outcome: Result<(), SuperviseFailure>,
    code: &str,
    verb: &str,
    module_id: String,
) -> (r: Result<SupervisorAck, ErrorBody>)
    ensures
        outcome is Ok ==> r == Ok::<_, ErrorBody>(SupervisorAck { module_id, applied: true }),
        outcome matches Err(failure) ==> (r matches Err(e) && e@ == failure_of(
            failure,
            code@,
            verb@,
            module_id@,
        )),
{
    match outcome {
        Ok(()) => Ok(SupervisorAck { module_id, applied: true }),
        Err(SuperviseFailure::Disabled(text)) => Err(control_error("module_disabled", text)),
        Err(SuperviseFailure::Other(text)) => Err(
            control_error(
                code,
                String::from_str("failed to ").concat(verb).concat(" module_id '").concat(
                    module_id.as_str(),
                ).concat("': ").concat(text.as_str()),
            ),
        ),
    }
}

/// Answers a restart.
pub fn restart_answer(outcome: Result<(), SuperviseFailure>, module_id: String) -> (r: Result<
    SupervisorAck,
    ErrorBody,
>)
    ensures
        outcome is Ok ==> r == Ok::<_, ErrorBody>(SupervisorAck { module_id, applied: true }),
        outcome matches Err(failure) ==> (r matches Err(e) && e@ == failure_of(
            failure,
            "target_unavailable"@,
            "restart"@,
            module_id@,
        )),
{
    acknowledge(outcome, "target_unavailable", "restart", module_id)
}

/// Answers a reload.
pub fn reload_answer(outcome: Result<(), SuperviseFailure>, module_id: String) -> (r: Result<
    SupervisorAck,
    ErrorBody,
>)
    ensures
        outcome is Ok ==> r == Ok::<_, ErrorBody>(SupervisorAck { module_id, applied: true }),
        outcome matches Err(failure) ==> (r matches Err(e) && e@ == failure_of(
            failure,
            "reload_failed"@,
            "reload"@,
            module_id@,
        )),
{
    acknowledge(outcome, "reload_failed", "reload", module_id)
}

/// Answers the enabling or disabling of a module. The supervisor says whether that
/// changed anything.
pub fn set_enabled_answer(outcome: Result<bool, String>, module_id: String, enabled: bool) -> (r:
    Result<SupervisorAck, ErrorBody>)
    ensures
        outcome matches Ok(applied) ==> r == Ok::<_, ErrorBody>(
            SupervisorAck { module_id, applied },
        ),
        outcome matches Err(text) ==> (r matches Err(e) && e@ == error_of(
            "target_unavailable"@,
            "failed to set module_id '"@ + module_id@ + "' enabled="@ + bool_word(enabled) + ": "@
                + text@,
        )),
{
    match outcome {
        Ok(applied) => Ok(SupervisorAck { module_id, applied }),
        Err(text) => Err(
            control_error(
                "target_unavailable",
                String::from_str("failed to set module_id '").concat(module_id.as_str()).concat(
                    "' enabled=",
                ).concat(bool_text(enabled)).concat(": ").concat(text.as_str()),
            ),
        ),
    }
}

/// Why a spawn subscription was not opened.
#[derive(Debug)]
pub enum SpawnSubscribeRefusal {
    /// The cursor is one of another run of the daemon.
    ForeignIncarnation { current: String },
    /// The cursor is older than what is kept. `oldest` is the oldest cursor as a
    /// JSON text.
    TooOld { oldest: String },
    Frame(String),
}

/// What a client is told of a spawn subscription that was not opened.
pub open spec fn subscribe_refusal(refusal: SpawnSubscribeRefusal, corr: u64) -> Result<
    ErrorView,
    FaultView,
> {
    match refusal {
        SpawnSubscribeRefusal::ForeignIncarnation { current } => Ok(
            ErrorView {
                code: "spawn_cursor_incarnation_mismatch"@,
                message: "spawn cursor belongs to a different daemon incarnation"@,
                detail: Some(
                    DetailView::Field { name: "current_daemon_incarnation"@, value: current@ },
                ),
            },
        ),
        SpawnSubscribeRefusal::TooOld { oldest } => Ok(
            ErrorView {
                code: "spawn_cursor_too_old"@,
                message: "spawn cursor predates the retained event ring"@,
                detail: Some(DetailView::Nested { name: "oldest_retained_cursor"@, json: oldest@ }),
            },
        ),
        SpawnSubscribeRefusal::Frame(text) => Err(
            backend_fault(corr, "failed to open supervisor spawn subscription: "@ + text@),
        ),
    }
}

/// Answers a spawn subscription. One that was opened is answered by its events
/// alone.
pub fn spawn_subscribe_answer(outcome: Result<(), SpawnSubscribeRefusal>, corr: u64) -> (r: Result<
    Option<ErrorBody>,
    RouterError,
>)
    ensures
        outcome is Ok ==> r == Ok::<Option<ErrorBody>, RouterError>(None),
        outcome matches Err(refusal) ==> match subscribe_refusal(refusal, corr) {
            Ok(e) => r matches Ok(Some(body)) && body@ == e,
            Err(fault) => r matches Err(e) && e@ == fault,
        },
{
    match outcome {
        Ok(()) => Ok(None),
        Err(SpawnSubscribeRefusal::ForeignIncarnation { current }) => Ok(
            Some(
                control_error_with_field(
                    "spawn_cursor_incarnation_mismatch",
                    String::from_str("spawn cursor belongs to a different daemon incarnation"),
                    "current_daemon_incarnation",
                    current.as_str(),
                ),
            ),
        ),
        Err(SpawnSubscribeRefusal::TooOld { oldest }) => Ok(
            Some(
                ErrorBody {
                    code: String::from_str("spawn_cursor_too_old"),
                    message: String::from_str("spawn cursor predates the retained event ring"),
                    detail: Some(
                        ErrorDetail::Nested {
                            name: String::from_str("oldest_retained_cursor"),
                            json: oldest,
                        },
                    ),
                },
            ),
        ),
        Err(SpawnSubscribeRefusal::Frame(text)) => Err(
            backend(
                corr,
                String::from_str("failed to open supervisor spawn subscription: ").concat(
                    text.as_str(),
                ),
            ),
        ),
    }
}

/// How a process last ended. `K` is the kind of end.
#[derive(Debug)]
pub struct LastExit<K> {
    pub code: Option<i32>,
    pub signal: Option<i32>,
    pub at_ms: u64,
    pub kind: K,
}

/// What the supervisor holds of a module's health. `H` is the status, `M` the
/// metrics, `A` an action.
#[derive(Debug)]
pub struct HealthStatus<H, M, A> {
    pub status: H,
    pub detail: Option<String>,
    pub metrics: Option<M>,
    pub consecutive_failures: u32,
    pub late_answer_count: u64,
    pub last_late_answer_latency_ms: Option<u64>,
    pub last_action: Option<A>,
    pub last_action_ms: Option<u64>,
    pub last_probe_ms: Option<u64>,
}

/// What the supervisor holds of a module.
#[derive(Debug)]
pub struct ModuleStatus<H, M, A, K> {
    pub module_id: String,
    pub state: String,
    pub enabled: bool,
    pub live: bool,
    pub protocol: ModuleProtocol,
    pub health: HealthStatus<H, M, A>,
    pub last_exit: Option<LastExit<K>>,
    pub restart_count: u32,
    pub max_restarts: u32,
    pub lifetime_restarts: u64,
    pub spawn_generation: u64,
    pub restart_window: Span,
    pub drain_timeout: Span,
    pub restart_backoff: Span,
    pub restart_max_backoff: Span,
}

/// A module in the list of supervised modules.
#[derive(Debug)]
pub struct SupervisorEntry<H, K> {
    pub module_id: String,
    pub state: String,
    pub enabled: bool,
    pub live: bool,
    pub protocol: ModuleProtocol,
    pub health: H,
    pub last_probe_ms: Option<u64>,
    pub last_exit_code: Option<i32>,
    pub last_exit_signal: Option<i32>,
    pub last_exit_ms: Option<u64>,
    pub last_exit_kind: Option<K>,
    pub restart_count: Option<u32>,
    pub max_restarts: Option<u32>,
    pub lifetime_restarts: Option<u64>,
    pub spawn_generation: Option<u64>,
    pub restart_window_secs: Option<u64>,
    pub drain_timeout_ms: Option<u64>,
    pub restart_backoff_ms: Option<u64>,
    pub restart_max_backoff_ms: Option<u64>,
}

/// Whole milliseconds, counted modulo 2^64.
pub open spec fn whole_millis(nanos: nat) -> u64 {
    ((nanos / (NANOS_PER_MILLI as nat)) % 0x1_0000_0000_0000_0000) as u64
}

/// The entry is what the status says.
pub open spec fn entry_says<H, M, A, K>(
    entry: SupervisorEntry<H, K>,
    status: ModuleStatus<H, M, A, K>,
) -> bool {
    &&& entry.module_id == status.module_id
    &&& entry.state == status.state
    &&& entry.enabled == status.enabled
    &&& entry.live == status.live
    &&& entry.protocol == status.protocol
    &&& entry.health == status.health.status
    &&& entry.last_probe_ms == status.health.last_probe_ms
    &&& match status.last_exit {
        Some(exit) => {
            &&& entry.last_exit_code == exit.code
            &&& entry.last_exit_signal == exit.signal
            &&& entry.last_exit_ms == Some(exit.at_ms)
            &&& entry.last_exit_kind == Some(exit.kind)
        },
        None => {
            &&& entry.last_exit_code is None
            &&& entry.last_exit_signal is None
            &&& entry.last_exit_ms is None
            &&& entry.last_exit_kind is None
        },
    }
    &&& entry.restart_count == Some(status.restart_count)
    &&& entry.max_restarts == Some(status.max_restarts)
    &&& entry.lifetime_restarts == Some(status.lifetime_restarts)
    &&& entry.spawn_generation == Some(status.spawn_generation)
    &&& entry.restart_window_secs == Some(
        (status.restart_window@ / (NANOS_PER_SEC as nat)) as u64,
    )
    &&& entry.drain_timeout_ms == Some(whole_millis(status.drain_timeout@))
    &&& entry.restart_backoff_ms == Some(whole_millis(status.restart_backoff@))
    &&& entry.restart_max_backoff_ms == Some(whole_millis(status.restart_max_backoff@))
}

/// A module as it stands in the list.
pub fn supervisor_entry<H, M, A, K>(status: ModuleStatus<H, M, A, K>) -> (r: SupervisorEntry<H, K>)
    ensures
        entry_says(r, status),
{
    let (last_exit_code, last_exit_signal, last_exit_ms, last_exit_kind) = match status.last_exit {
        Some(exit) => (exit.code, exit.signal, Some(exit.at_ms), Some(exit.kind)),
        None => (None, None, None, None),
    };
    SupervisorEntry {
        module_id: status.module_id,
        state: status.state,
        enabled: status.enabled,
        live: status.live,
        protocol: status.protocol,
        health: status.health.status,
        last_probe_ms: status.health.last_probe_ms,
        last_exit_code,
        last_exit_signal,
        last_exit_ms,
        last_exit_kind,
        restart_count: Some(status.restart_count),
        max_restarts: Some(status.max_restarts),
        lifetime_restarts: Some(status.lifetime_restarts),
        spawn_generation: Some(status.spawn_generation),
        restart_window_secs: Some(status.restart_window.as_secs()),
        drain_timeout_ms: Some(status.drain_timeout.as_millis()),
        restart_backoff_ms: Some(status.restart_backoff.as_millis()),
        restart_max_backoff_ms: Some(status.restart_max_backoff.as_millis()),
    }
}

/// A module in the list of the modules' health.
#[derive(Debug)]
pub struct SupervisorHealthEntry<H, M, A> {
    pub module_id: String,
    pub status: H,
    pub detail: Option<String>,
    pub metrics: Option<M>,
    pub consecutive_failures: u32,
    pub late_answer_count: u64,
    pub last_late_answer_latency_ms: Option<u64>,
    pub last_action: Option<A>,
    pub last_action_ms: Option<u64>,
    pub last_probe_ms: Option<u64>,
}

/// The entry is what the status and the missing capabilities say.
pub open spec fn health_entry_says<H, M, A, K>(
    entry: SupervisorHealthEntry<H, M, A>,
    status: ModuleStatus<H, M, A, K>,
    problem: Option<Seq<char>>,
) -> bool {
    &&& entry.module_id == status.module_id
    &&& entry.status == status.health.status
    &&& text_option(entry.detail) == with_problem(text_option(status.health.detail), problem)
    &&& entry.metrics == status.health.metrics
    &&& entry.consecutive_failures == status.health.consecutive_failures
    &&& entry.late_answer_count == status.health.late_answer_count
    &&& entry.last_late_answer_latency_ms == status.health.last_late_answer_latency_ms
    &&& entry.last_action == status.health.last_action
    &&& entry.last_action_ms == status.health.last_action_ms
    &&& entry.last_probe_ms == status.health.last_probe_ms
}

/// A module as it stands in the list of the modules' health, with what is missing
/// of its required capabilities behind its own detail.
pub fn health_entry<H, M, A, K>(
    status: ModuleStatus<H, M, A, K>,
    capability_detail: Option<String>,
) -> (r: SupervisorHealthEntry<H, M, A>)
    ensures
        health_entry_says(r, status, text_option(capability_detail)),
{
    let health = status.health;
    SupervisorHealthEntry {
        module_id: status.module_id,
        status: health.status,
        detail: append_capability_problem_detail(health.detail, capability_detail),
        metrics: health.metrics,
        consecutive_failures: health.consecutive_failures,
        late_answer_count: health.late_answer_count,
        last_late_answer_latency_ms: health.last_late_answer_latency_ms,
        last_action: health.last_action,
        last_action_ms: health.last_action_ms,
        last_probe_ms: health.last_probe_ms,
    }
}

/// What a walk over the modules gives: what was read of all of them, or of the
/// first that could not be read the reason behind `what`.
pub open spec fn all_read<A>(readings: Seq<Result<A, String>>, what: Seq<char>) -> Result<
    Seq<A>,
    Seq<char>,
>
    decreases readings.len(),
{
    if readings.len() == 0 {
        Ok(Seq::empty())
    } else {
        match all_read(readings.drop_last(), what) {
            Err(text) => Err(text),
            Ok(before) => match readings.last() {
                Ok(value) => Ok(before.push(value)),
                Err(text) => Err(what + text@),
            },
        }
    }
}

proof fn one_unread_ends_it<A>(readings: Seq<Result<A, String>>, what: Seq<char>, i: int)
    requires
        0 <= i <= readings.len(),
        all_read(readings.take(i), what) is Err,
    ensures
        all_read(readings, what) == all_read(readings.take(i), what),
    decreases readings.len(),
{
    if i == readings.len() {
        assert(readings.take(i) =~= readings);
    } else {
        assert(readings.drop_last().take(i) =~= readings.take(i));
        one_unread_ends_it(readings.drop_last(), what, i);
    }
}

/// Walks over what was read of the modules.
pub fn read_all<A>(readings: Vec<Result<A, String>>, what: &str, corr: u64) -> (r: Result<
    Vec<A>,
    RouterError,
>)
    ensures
        match r {
            Ok(values) => all_read(readings@, what@) == Ok::<_, Seq<char>>(values@),
            Err(e) => all_read(readings@, what@) is Err && e@ == backend_fault(
                corr,
                all_read(readings@, what@)->Err_0,
            ),
        },
{
    let ghost all = readings@;
    let mut rest: Vec<Result<A, String>> = readings;
    let mut values: Vec<A> = Vec::new();
    let mut i: usize = 0;
    let n: usize = rest.len();
    while i < n
        invariant
            i <= n,
            all == readings@,
            n == all.len(),
            rest@ == all.skip(i as int),
            all_read(all.take(i as int), what@) == Ok::<_, Seq<char>>(values@),
        decreases n - i,
    {
        let reading: Result<A, String> = rest.remove(0);
        proof {
            assert(reading == all[i as int]);
            assert(rest@ =~= all.skip(i + 1));
            assert(all.take(i + 1).drop_last() =~= all.take(i as int));
            assert(all.take(i + 1).last() == all[i as int]);
        }
        match reading {
            Ok(value) => values.push(value),
            Err(text) => {
                proof {
                    one_unread_ends_it(all, what@, i + 1);
                }
                return Err(backend(corr, String::from_str(what).concat(text.as_str())));
            },
        }
        i += 1;
    }
    proof {
        assert(all.take(i as int) =~= all);
    }
    Ok(values)
}

/// What a module says of its own build. `B` is a build.
#[derive(Debug)]
pub enum ModuleDeclaredProvenance<B> {
    Reported { build: B },
    /// It is not registered, or says nothing.
    Unverifiable,
}

/// What a module says of its own build.
pub open spec fn declared_as<B>(provenance: Option<B>) -> ModuleDeclaredProvenance<B> {
    match provenance {
        Some(build) => ModuleDeclaredProvenance::Reported { build },
        None => ModuleDeclaredProvenance::Unverifiable,
    }
}

/// What a module says of its own build, from what the registry holds of it.
pub fn module_declared<B>(provenance: Option<B>) -> (r: ModuleDeclaredProvenance<B>)
    ensures
        r == declared_as(provenance),
{
    match provenance {
        Some(build) => ModuleDeclaredProvenance::Reported { build },
        None => ModuleDeclaredProvenance::Unverifiable,
    }
}

/// The word for a need.
pub open spec fn need_word(need: CapabilityNeed) -> Seq<char> {
    match need {
        CapabilityNeed::Required => "required"@,
        CapabilityNeed::Optional => "optional"@,
    }
}

/// The word for a need.
pub fn need_text(need: CapabilityNeed) -> (r: &'static str)
    ensures
        r@ == need_word(need),
{
    match need {
        CapabilityNeed::Required => "required",
        CapabilityNeed::Optional => "optional",
    }
}

/// How a requirement of a module stands, as the evaluator holds it.
#[derive(Debug)]
pub struct RequirementStatus {
    pub consumer: String,
    pub capability: String,
    pub need: CapabilityNeed,
    /// The verdict's word.
    pub verdict: String,
    pub episode_seq: u64,
    pub config_satisfiable: bool,
    pub runtime_available: bool,
    pub detail: String,
}

/// How a requirement of a module stands, as a client is told.
#[derive(Debug)]
pub struct CapabilityRequirementStatus {
    pub consumer: String,
    pub capability: String,
    pub need: String,
    pub verdict: String,
    pub episode_seq: u64,
    pub config_satisfiable: bool,
    pub runtime_available: bool,
    pub detail: String,
}

/// The client is told the requirement as it stands, its need in a word.
pub open spec fn told_as(told: CapabilityRequirementStatus, status: RequirementStatus) -> bool {
    &&& told.need@ == need_word(status.need)
    &&& told == (CapabilityRequirementStatus {
        need: told.need,
        consumer: status.consumer,
        capability: status.capability,
        verdict: status.verdict,
        episode_seq: status.episode_seq,
        config_satisfiable: status.config_satisfiable,
        runtime_available: status.runtime_available,
        detail: status.detail,
    })
}

/// How a requirement of a module stands, as a client is told.
pub fn capability_requirement_status(status: RequirementStatus) -> (r: CapabilityRequirementStatus)
    ensures
        told_as(r, status),
{
    CapabilityRequirementStatus {
        consumer: status.consumer,
        capability: status.capability,
        need: String::from_str(need_text(status.need)),
        verdict: status.verdict,
        episode_seq: status.episode_seq,
        config_satisfiable: status.config_satisfiable,
        runtime_available: status.runtime_available,
        detail: status.detail,
    }
}

/// How all requirements stand, in the evaluator's order.
pub fn capability_requirement_statuses(statuses: Vec<RequirementStatus>) -> (r: Vec<
    CapabilityRequirementStatus,
>)
    ensures
        r.len() == statuses.len(),
        forall|i: int| 0 <= i < r.len() ==> told_as(#[trigger] r@[i], statuses@[i]),
{
    let ghost all = statuses@;
    let mut rest: Vec<RequirementStatus> = statuses;
    let mut r: Vec<CapabilityRequirementStatus> = Vec::new();
    let mut i: usize = 0;
    let n: usize = rest.len();
    while i < n
        invariant
            i <= n,
            all == statuses@,
            n == all.len(),
            rest@ == all.skip(i as int),
            r.len() == i,
            forall|j: int| 0 <= j < i ==> told_as(#[trigger] r@[j], all[j]),
        decreases n - i,
    {
        let status: RequirementStatus = rest.remove(0);
        proof {
            assert(status == all[i as int]);
            assert(rest@ =~= all.skip(i + 1));
        }
        r.push(capability_requirement_status(status));
        i += 1;
    }
    r
}

/// What was read of a module's state: first whether it is warming, then its
/// status.
pub open spec fn status_reading<S>(
    warming: Result<bool, String>,
    status: Result<S, String>,
    module_id: Seq<char>,
    corr: u64,
) -> Result<(S, bool), FaultView> {
    match warming {
        Err(text) => Err(
            backend_fault(
                corr,
                "failed to read supervisor warming state for module_id '"@ + module_id + "': "@
                    + text@,
            ),
        ),
        Ok(warming) => match status {
            Err(text) => Err(
                backend_fault(
                    corr,
                    "failed to read supervisor status for module_id '"@ + module_id + "': "@
                        + text@,
                ),
            ),
            Ok(status) => Ok((status, warming)),
        },
    }
}

/// Takes what was read of a module's state.
pub fn supervisor_status<S>(
    warming: Result<bool, String>,
    status: Result<S, String>,
    module_id: &str,
    corr: u64,
) -> (r: Result<(S, bool), RouterError>)
    ensures
        match r {
            Ok(value) => status_reading(warming, status, module_id@, corr) == Ok::<_, FaultView>(
                value,
            ),
            Err(e) => status_reading(warming, status, module_id@, corr) == Err::<(S, bool), _>(e@),
        },
{
    match warming {
        Err(text) => Err(
            backend(
                corr,
                String::from_str("failed to read supervisor warming state for module_id '").concat(
                    module_id,
                ).concat("': ").concat(text.as_str()),
            ),
        ),
        Ok(warming) => match status {
            Err(text) => Err(
                backend(
                    corr,
                    String::from_str("failed to read supervisor status for module_id '").concat(
                        module_id,
                    ).concat("': ").concat(text.as_str()),
                ),
            ),
            Ok(status) => Ok((status, warming)),
        },
    }
}

/// The supervised modules, as of a generation of the registry.
#[derive(Debug)]
pub struct SupervisorList<H, K> {
    pub generation: u64,
    pub modules: Vec<SupervisorEntry<H, K>>,
}

/// What is read before a list can be told: the registry's generation and each
/// module's status.
pub open spec fn list_reading<A>(
    generation: Result<u64, String>,
    readings: Seq<Result<A, String>>,
    what: Seq<char>,
    corr: u64,
) -> Result<(u64, Seq<A>), FaultView> {
    match generation {
        Err(text) => Err(backend_fault(corr, text@)),
        Ok(generation) => match all_read(readings, what) {
            Err(text) => Err(backend_fault(corr, text)),
            Ok(values) => Ok((generation, values)),
        },
    }
}

fn read_list<A>(
    generation: Result<u64, String>,
    readings: Vec<Result<A, String>>,
    what: &str,
    corr: u64,
) -> (r: Result<(u64, Vec<A>), RouterError>)
    ensures
        match r {
            Ok((g, values)) => list_reading(generation, readings@, what@, corr) == Ok::<
                _,
                FaultView,
            >((g, values@)),
            Err(e) => list_reading(generation, readings@, what@, corr) == Err::<(u64, Seq<A>), _>(
                e@,
            ),
        },
{
    match generation {
        Err(text) => Err(backend(corr, text)),
        Ok(generation) => match read_all(readings, what, corr) {
            Err(e) => Err(e),
            Ok(values) => Ok((generation, values)),
        },
    }
}

/// Lists the supervised modules.
pub fn supervisor_list<H, M, A, K>(
    generation: Result<u64, String>,
    statuses: Vec<Result<ModuleStatus<H, M, A, K>, String>>,
    corr: u64,
) -> (r: Result<SupervisorList<H, K>, RouterError>)
    ensures
        ({
            let reading = list_reading(
                generation,
                statuses@,
                "failed to read supervisor status: "@,
                corr,
            );
            match r {
                Ok(list) => reading matches Ok((g, values)) && list.generation == g
                    && list.modules@.len() == values.len() && forall|i: int|
                    0 <= i < values.len() ==> entry_says(#[trigger] list.modules@[i], values[i]),
                Err(e) => reading == Err::<(u64, Seq<ModuleStatus<H, M, A, K>>), _>(e@),
            }
        }),
{
    let (generation, values) = match read_list(
        generation,
        statuses,
        "failed to read supervisor status: ",
        corr,
    ) {
        Ok(read) => read,
        Err(e) => return Err(e),
    };
    let ghost all = values@;
    let n: usize = values.len();
    let mut rest: Vec<ModuleStatus<H, M, A, K>> = values;
    let mut modules: Vec<SupervisorEntry<H, K>> = Vec::new();
    let mut i: usize = 0;
    while i < n
        invariant
            i <= n,
            n == all.len(),
            rest@ == all.skip(i as int),
            modules@.len() == i,
            forall|j: int| 0 <= j < i ==> entry_says(#[trigger] modules@[j], all[j]),
        decreases n - i,
    {
        let status: ModuleStatus<H, M, A, K> = rest.remove(0);
        proof {
            assert(status == all[i as int]);
            assert(rest@ =~= all.skip(i + 1));
        }
        modules.push(supervisor_entry(status));
        i += 1;
    }
    Ok(SupervisorList { generation, modules })
}

/// The health of the supervised modules, as of a generation of the registry.
#[derive(Debug)]
pub struct SupervisorHealth<H, M, A> {
    pub generation: u64,
    pub modules: Vec<SupervisorHealthEntry<H, M, A>>,
}

/// Lists the health of the supervised modules. Each reading holds a status and
/// what is missing of that module's required capabilities.
pub fn supervisor_health<H, M, A, K>(
    generation: Result<u64, String>,
    readings: Vec<Result<(ModuleStatus<H, M, A, K>, Option<String>), String>>,
    corr: u64,
) -> (r: Result<SupervisorHealth<H, M, A>, RouterError>)
    ensures
        ({
            let reading = list_reading(
                generation,
                readings@,
                "failed to read supervisor health: "@,
                corr,
            );
            match r {
                Ok(list) => reading matches Ok((g, values)) && list.generation == g
                    && list.modules@.len() == values.len() && forall|i: int|
                    0 <= i < values.len() ==> health_entry_says(
                        #[trigger] list.modules@[i],
                        values[i].0,
                        text_option(values[i].1),
                    ),
                Err(e) => reading == Err::<
                    (u64, Seq<(ModuleStatus<H, M, A, K>, Option<String>)>),
                    _,
                >(e@),
            }
        }),
{
    let (generation, values) = match read_list(
        generation,
        readings,
        "failed to read supervisor health: ",
        corr,
    ) {
        Ok(read) => read,
        Err(e) => return Err(e),
    };
    let ghost all = values@;
    let n: usize = values.len();
    let mut rest: Vec<(ModuleStatus<H, M, A, K>, Option<String>)> = values;
    let mut modules: Vec<SupervisorHealthEntry<H, M, A>> = Vec::new();
    let mut i: usize = 0;
    while i < n
        invariant
            i <= n,
            n == all.len(),
            rest@ == all.skip(i as int),
            modules@.len() == i,
            forall|j: int|
                0 <= j < i ==> health_entry_says(
                    #[trigger] modules@[j],
                    all[j].0,
                    text_option(all[j].1),
                ),
        decreases n - i,
    {
        let (status, problem) = rest.remove(0);
        proof {
            assert((status, problem) == all[i as int]);
            assert(rest@ =~= all.skip(i + 1));
        }
        modules.push(health_entry(status, problem));
        i += 1;
    }
    Ok(SupervisorHealth { generation, modules })
}

/// What the requirements of capabilities are looked at against: the modules that
/// run and those that are registered. `R` is the one, `G` the other.
pub open spec fn snapshot_reading<R, G>(
    running: Seq<Result<R, String>>,
    registered: Result<Vec<G>, String>,
) -> Result<(Seq<R>, Seq<G>), FaultView> {
    match all_read(running, "failed to read capability status: "@) {
        Err(text) => Err(backend_fault(0, text)),
        Ok(running) => match registered {
            Err(text) => Err(
                backend_fault(0, "failed to list capability registrations: "@ + text@),
            ),
            Ok(registered) => Ok((running, registered@)),
        },
    }
}

/// Takes what the requirements of capabilities are looked at against.
pub fn runtime_capability_snapshot<R, G>(
    running: Vec<Result<R, String>>,
    registered: Result<Vec<G>, String>,
) -> (r: Result<(Vec<R>, Vec<G>), RouterError>)
    ensures
        match r {
            Ok((a, b)) => snapshot_reading(running@, registered) == Ok::<_, FaultView>((a@, b@)),
            Err(e) => snapshot_reading(running@, registered) == Err::<(Seq<R>, Seq<G>), _>(e@),
        },
{
    let running: Vec<R> = match read_all(running, "failed to read capability status: ", 0) {
        Ok(running) => running,
        Err(e) => return Err(e),
    };
    match registered {
        Err(text) => Err(
            backend(
                0,
                String::from_str("failed to list capability registrations: ").concat(
                    text.as_str(),
                ),
            ),
        ),
        Ok(registered) => Ok((running, registered)),
    }
}

/// What is read of a module before its provenance can be told. `B` is a build, `O`
/// what is seen of the process.
#[derive(Debug)]
pub struct ProvenanceReading<B, O> {
    /// The module's id and what is seen of its process.
    pub status: Result<(String, O), String>,
    /// What the registry holds of the module's own word.
    pub declared: Result<Option<B>, String>,
}

/// Where a module comes from.
#[derive(Debug)]
pub struct SupervisorModuleProvenance<B, O> {
    pub module_id: String,
    pub module_declared: ModuleDeclaredProvenance<B>,
    pub daemon_observed: O,
}

/// Where the modules come from, or what could not be read first.
pub open spec fn provenance_of<B, O>(readings: Seq<ProvenanceReading<B, O>>, corr: u64) -> Result<
    Seq<SupervisorModuleProvenance<B, O>>,
    FaultView,
>
    decreases readings.len(),
{
    if readings.len() == 0 {
        Ok(Seq::empty())
    } else {
        match provenance_of(readings.drop_last(), corr) {
            Err(fault) => Err(fault),
            Ok(before) => match readings.last().status {
                Err(text) => Err(
                    backend_fault(corr, "failed to read supervisor status: "@ + text@),
                ),
                Ok((module_id, daemon_observed)) => match readings.last().declared {
                    Err(text) => Err(backend_fault(corr, text@)),
                    Ok(declared) => Ok(
                        before.push(
                            SupervisorModuleProvenance {
                                module_id,
                                module_declared: declared_as(declared),
                                daemon_observed,
                            },
                        ),
                    ),
                },
            },
        }
    }
}

proof fn one_unknown_origin_ends_it<B, O>(
    readings: Seq<ProvenanceReading<B, O>>,
    corr: u64,
    i: int,
)
    requires
        0 <= i <= readings.len(),
        provenance_of(readings.take(i), corr) is Err,
    ensures
        provenance_of(readings, corr) == provenance_of(readings.take(i), corr),
    decreases readings.len(),
{
    if i == readings.len() {
        assert(readings.take(i) =~= readings);
    } else {
        assert(readings.drop_last().take(i) =~= readings.take(i));
        one_unknown_origin_ends_it(readings.drop_last(), corr, i);
    }
}

/// Tells where the modules come from.
pub fn supervisor_provenance<B, O>(readings: Vec<ProvenanceReading<B, O>>, corr: u64) -> (r: Result<
    Vec<SupervisorModuleProvenance<B, O>>,
    RouterError,
>)
    ensures
        match r {
            Ok(modules) => provenance_of(readings@, corr) == Ok::<_, FaultView>(modules@),
            Err(e) => provenance_of(readings@, corr) == Err::<
                Seq<SupervisorModuleProvenance<B, O>>,
                _,
            >(e@),
        },
{
    let ghost all = readings@;
    let n: usize = readings.len();
    let mut rest: Vec<ProvenanceReading<B, O>> = readings;
    let mut modules: Vec<SupervisorModuleProvenance<B, O>> = Vec::new();
    let mut i: usize = 0;
    while i < n
        invariant
            i <= n,
            all == readings@,
            n == all.len(),
            rest@ == all.skip(i as int),
            provenance_of(all.take(i as int), corr) == Ok::<_, FaultView>(modules@),
        decreases n - i,
    {
        let reading: ProvenanceReading<B, O> = rest.remove(0);
        proof {
            assert(reading == all[i as int]);
            assert(rest@ =~= all.skip(i + 1));
            assert(all.take(i + 1).drop_last() =~= all.take(i as int));
            assert(all.take(i + 1).last() == all[i as int]);
        }
        let (module_id, daemon_observed) = match reading.status {
            Ok(status) => status,
            Err(text) => {
                proof {
                    one_unknown_origin_ends_it(all, corr, i + 1);
                }
                return Err(
                    backend(
                        corr,
                        String::from_str("failed to read supervisor status: ").concat(
                            text.as_str(),
                        ),
                    ),
                );
            },
        };
        let declared: Option<B> = match reading.declared {
            Ok(declared) => declared,
            Err(text) => {
                proof {
                    one_unknown_origin_ends_it(all, corr, i + 1);
                }
                return Err(backend(corr, text));
            },
        };
        modules.push(
            SupervisorModuleProvenance {
                module_id,
                module_declared: module_declared(declared),
                daemon_observed,
            },
        );
        i += 1;
    }
    proof {
        assert(all.take(i as int) =~= all);
    }
    Ok(modules)
}

} // verus!
