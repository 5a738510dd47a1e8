//! What holds of every answer about the supervised modules, field by field.
use crate::control::answers::{faults, first_failure, tells};
use crate::control::fault::RouterError;
use crate::control::supervisor::{
    all_read, capability_requirement_statuses, provenance_of, reload_answer, restart_answer,
    runtime_capability_snapshot, set_enabled_answer, spawn_subscribe_answer, stderr_tail_answer,
    supervised_answer, supervised_gate, supervisor_health, supervisor_list, supervisor_provenance,
    supervisor_status, CapabilityRequirementStatus, CaptureState, ModuleDeclaredProvenance,
    ModuleStatus, OfModule, ProvenanceReading, RequirementStatus, SpawnSubscribeRefusal,
    StderrCaptureState, StderrTail, StderrTailEntry, SuperviseFailure, SupervisorAck,
    SupervisorHealth, SupervisorList, SupervisorModuleProvenance, TailEntry, TailSnapshot,
};
use crate::control::wire::{ErrorBody, ErrorDetail};
use vstd::prelude::*;

verus! {

/// Results are read in order: all of them, or up to the first that failed.
proof fn readings_are_read_in_order<A>(readings: Seq<Result<A, String>>, what: Seq<char>)
    ensures
        all_read(readings, what) matches Ok(values) ==> values.len() == readings.len() && forall|
            i: int,
        |
            0 <= i < readings.len() ==> #[trigger] readings[i] == Ok::<A, String>(values[i]),
        all_read(readings, what) matches Err(text) ==> exists|i: int| #[trigger]
            first_failure(readings, i) && text == what + readings[i]->Err_0@,
    decreases readings.len(),
{
    if readings.len() > 0 {
        let before = readings.drop_last();
        readings_are_read_in_order(before, what);
        let last = readings.len() - 1;
        match all_read(before, what) {
            Err(text) => {
                let i = choose|i: int| #[trigger]
                    first_failure(before, i) && text == what + before[i]->Err_0@;
                assert(readings[i] == before[i]);
                assert forall|j: int| 0 <= j < i implies (#[trigger] readings[j]) is Ok by {
                    assert(before[j] is Ok);
                }
                assert(first_failure(readings, i));
            },
            Ok(values) => {
                assert forall|j: int| 0 <= j < last implies #[trigger] readings[j] == Ok::<
                    A,
                    String,
                >(values[j]) by {
                    assert(before[j] == readings[j]);
                }
                if readings[last] is Err {
                    assert(first_failure(readings, last));
                }
            },
        }
    }
}

/// Two failures that are both the first are the same.
proof fn one_first_failure<A, E>(readings: Seq<Result<A, E>>, i: int, j: int)
    requires
        first_failure(readings, i),
        first_failure(readings, j),
    ensures
        i == j,
{
    if i < j {
        assert(readings[i] is Ok);
    }
    if j < i {
        assert(readings[j] is Ok);
    }
}

/// `supervisor.list` tells of each module, in the order in which they were read,
/// what its status holds: the running flag is the status's own and not the
/// configured one, and every flag, counter and time is that of the same name.
pub proof fn a_list_tells_each_status_as_it_is<H, M, A, K>(
    generation: Result<u64, String>,
    statuses: Vec<Result<ModuleStatus<H, M, A, K>, String>>,
    corr: u64,
    r: Result<SupervisorList<H, K>, RouterError>,
    i: int,
)
    requires
        call_ensures(supervisor_list::<H, M, A, K>, (generation, statuses, corr), r),
        r is Ok,
        0 <= i < statuses@.len(),
    ensures
        r->Ok_0.modules@.len() == statuses@.len(),
        generation == Ok::<u64, String>(r->Ok_0.generation),
        statuses@[i] is Ok,
        ({
            let entry = r->Ok_0.modules@[i];
            let status = statuses@[i]->Ok_0;
            &&& entry.live == status.live
            &&& entry.enabled == status.enabled
            &&& entry.module_id == status.module_id
            &&& entry.state == status.state
            &&& entry.protocol == status.protocol
            &&& entry.health == status.health.status
            &&& entry.last_probe_ms == status.health.last_probe_ms
            &&& entry.restart_count == Some(status.restart_count)
            &&& entry.max_restarts == Some(status.max_restarts)
            &&& entry.lifetime_restarts == Some(status.lifetime_restarts)
            &&& entry.spawn_generation == Some(status.spawn_generation)
            &&& status.last_exit matches Some(exit) ==> entry.last_exit_code == exit.code
                && entry.last_exit_signal == exit.signal && entry.last_exit_ms == Some(exit.at_ms)
                && entry.last_exit_kind == Some(exit.kind)
            &&& status.last_exit is None ==> entry.last_exit_code is None
                && entry.last_exit_signal is None && entry.last_exit_ms is None
                && entry.last_exit_kind is None
        }),
{
    readings_are_read_in_order(statuses@, "failed to read supervisor status: "@);
}

/// In `supervisor.list` the restart window stands in whole seconds, and the drain
/// and back-off times in whole milliseconds, each that of the same name.
pub proof fn a_list_tells_each_time_in_its_unit<H, M, A, K>(
    generation: Result<u64, String>,
    statuses: Vec<Result<ModuleStatus<H, M, A, K>, String>>,
    corr: u64,
    r: Result<SupervisorList<H, K>, RouterError>,
    i: int,
)
    requires
        call_ensures(supervisor_list::<H, M, A, K>, (generation, statuses, corr), r),
        r is Ok,
        0 <= i < statuses@.len(),
    ensures
        ({
            let entry = r->Ok_0.modules@[i];
            let status = statuses@[i]->Ok_0;
            let most = 0x1_0000_0000_0000_0000nat;
            &&& entry.restart_window_secs is Some && entry.drain_timeout_ms is Some
            &&& entry.restart_backoff_ms is Some && entry.restart_max_backoff_ms is Some
            &&& status.restart_window@ / 1_000_000_000nat < most ==> entry.restart_window_secs->0
                == status.restart_window@ / 1_000_000_000nat
            &&& status.drain_timeout@ / 1_000_000nat < most ==> entry.drain_timeout_ms->0
                == status.drain_timeout@ / 1_000_000nat
            &&& status.restart_backoff@ / 1_000_000nat < most ==> entry.restart_backoff_ms->0
                == status.restart_backoff@ / 1_000_000nat
            &&& status.restart_max_backoff@ / 1_000_000nat < most
                ==> entry.restart_max_backoff_ms->0 == status.restart_max_backoff@ / 1_000_000nat
        }),
{
    readings_are_read_in_order(statuses@, "failed to read supervisor status: "@);
}

/// `supervisor.list` is answered exactly where the generation and every status
/// could be read; else the fault is the first that was met.
pub proof fn a_list_fails_with_the_first_fault<H, M, A, K>(
    generation: Result<u64, String>,
    statuses: Vec<Result<ModuleStatus<H, M, A, K>, String>>,
    corr: u64,
    r: Result<SupervisorList<H, K>, RouterError>,
    i: int,
)
    requires
        call_ensures(supervisor_list::<H, M, A, K>, (generation, statuses, corr), r),
    ensures
        generation is Ok && (forall|j: int|
            0 <= j < statuses@.len() ==> (#[trigger] statuses@[j]) is Ok) ==> r is Ok,
        generation matches Err(text) ==> r is Err && faults(r->Err_0, corr, text@),
        generation is Ok && first_failure(statuses@, i) ==> r is Err && faults(
            r->Err_0,
            corr,
            "failed to read supervisor status: "@ + statuses@[i]->Err_0@,
        ),
{
    let what = "failed to read supervisor status: "@;
    readings_are_read_in_order(statuses@, what);
    if all_read(statuses@, what) is Err {
        let first = choose|j: int| #[trigger]
            first_failure(statuses@, j) && all_read(statuses@, what)->Err_0 == what
                + statuses@[j]->Err_0@;
        if first_failure(statuses@, i) {
            one_first_failure(statuses@, i, first);
        }
    }
}

/// `supervisor.health` tells of each module what its health status holds; what is
/// missing of its required capabilities stands behind the detail.
pub proof fn a_health_answer_tells_each_status_as_it_is<H, M, A, K>(
    generation: Result<u64, String>,
    readings: Vec<Result<(ModuleStatus<H, M, A, K>, Option<String>), String>>,
    corr: u64,
    r: Result<SupervisorHealth<H, M, A>, RouterError>,
    i: int,
)
    requires
        call_ensures(supervisor_health::<H, M, A, K>, (generation, readings, corr), r),
        r is Ok,
        0 <= i < readings@.len(),
    ensures
        r->Ok_0.modules@.len() == readings@.len(),
        generation == Ok::<u64, String>(r->Ok_0.generation),
        readings@[i] is Ok,
        ({
            let entry = r->Ok_0.modules@[i];
            let (status, missing) = readings@[i]->Ok_0;
            &&& entry.module_id == status.module_id
            &&& entry.status == status.health.status
            &&& entry.metrics == status.health.metrics
            &&& entry.consecutive_failures == status.health.consecutive_failures
            &&& entry.late_answer_count == status.health.late_answer_count
            &&& entry.last_late_answer_latency_ms == status.health.last_late_answer_latency_ms
            &&& entry.last_action == status.health.last_action
            &&& entry.last_action_ms == status.health.last_action_ms
            &&& entry.last_probe_ms == status.health.last_probe_ms
            &&& status.health.detail is None && missing is None ==> entry.detail is None
            &&& status.health.detail is Some && missing is None ==> entry.detail is Some
                && entry.detail->0@ == status.health.detail->0@
            &&& status.health.detail is None && missing is Some ==> entry.detail is Some
                && entry.detail->0@ == missing->0@
            &&& status.health.detail is Some && missing is Some ==> entry.detail is Some
                && entry.detail->0@ == status.health.detail->0@ + "; "@ + missing->0@
        }),
{
    readings_are_read_in_order(readings@, "failed to read supervisor health: "@);
}

/// `supervisor.health` is answered exactly where the generation and every status
/// could be read; else the fault is the first that was met.
pub proof fn a_health_answer_fails_with_the_first_fault<H, M, A, K>(
    generation: Result<u64, String>,
    readings: Vec<Result<(ModuleStatus<H, M, A, K>, Option<String>), String>>,
    corr: u64,
    r: Result<SupervisorHealth<H, M, A>, RouterError>,
    i: int,
)
    requires
        call_ensures(supervisor_health::<H, M, A, K>, (generation, readings, corr), r),
    ensures
        generation is Ok && (forall|j: int|
            0 <= j < readings@.len() ==> (#[trigger] readings@[j]) is Ok) ==> r is Ok,
        generation matches Err(text) ==> r is Err && faults(r->Err_0, corr, text@),
        generation is Ok && first_failure(readings@, i) ==> r is Err && faults(
            r->Err_0,
            corr,
            "failed to read supervisor health: "@ + readings@[i]->Err_0@,
        ),
{
    let what = "failed to read supervisor health: "@;
    readings_are_read_in_order(readings@, what);
    if all_read(readings@, what) is Err {
        let first = choose|j: int| #[trigger]
            first_failure(readings@, j) && all_read(readings@, what)->Err_0 == what
                + readings@[j]->Err_0@;
        if first_failure(readings@, i) {
            one_first_failure(readings@, i, first);
        }
    }
}

/// A reading of one module's provenance has what the answer needs.
pub open spec fn provenance_was_read<B, O>(reading: ProvenanceReading<B, O>) -> bool {
    reading.status is Ok && reading.declared is Ok
}

/// The provenances read so far are those of the readings so far.
proof fn provenances_are_read_in_order<B, O>(readings: Seq<ProvenanceReading<B, O>>, corr: u64)
    ensures
        provenance_of(readings, corr) matches Ok(modules) ==> modules.len() == readings.len()
            && forall|i: int|
            0 <= i < readings.len() ==> {
                let module = #[trigger] modules[i];
                &&& provenance_was_read(readings[i])
                &&& module.module_id == readings[i].status->Ok_0.0
                &&& module.daemon_observed == readings[i].status->Ok_0.1
                &&& match readings[i].declared->Ok_0 {
                    Some(build) => module.module_declared == ModuleDeclaredProvenance::Reported {
                        build,
                    },
                    None => module.module_declared == ModuleDeclaredProvenance::<B>::Unverifiable,
                }
            },
        (forall|i: int|
            0 <= i < readings.len() ==> provenance_was_read(#[trigger] readings[i]))
            ==> provenance_of(readings, corr) is Ok,
    decreases readings.len(),
{
    if readings.len() > 0 {
        let before = readings.drop_last();
        provenances_are_read_in_order(before, corr);
        let last = readings.len() - 1;
        assert forall|i: int| 0 <= i < last implies #[trigger] before[i] == readings[i] by {}
        if forall|i: int| 0 <= i < readings.len() ==> provenance_was_read(#[trigger] readings[i]) {
            assert forall|i: int| 0 <= i < before.len() implies provenance_was_read(
                #[trigger] before[i],
            ) by {
                assert(readings[i] == before[i]);
            }
            assert(provenance_was_read(readings[last]));
        }
        if provenance_of(readings, corr) is Ok {
            let values = provenance_of(before, corr)->Ok_0;
            let modules = provenance_of(readings, corr)->Ok_0;
            assert forall|i: int| 0 <= i < last implies #[trigger] modules[i] == values[i]
                && readings[i] == before[i] by {}
        }
    }
}

/// `supervisor.provenance` tells of each module its own id, what the daemon
/// observed of it and what it declared; a module that declared nothing is
/// unverifiable. Every reading that came through is told.
pub proof fn provenance_is_told_module_by_module<B, O>(
    readings: Vec<ProvenanceReading<B, O>>,
    corr: u64,
    r: Result<Vec<SupervisorModuleProvenance<B, O>>, RouterError>,
    i: int,
)
    requires
        call_ensures(supervisor_provenance::<B, O>, (readings, corr), r),
        0 <= i < readings@.len(),
    ensures
        (forall|j: int| 0 <= j < readings@.len() ==> provenance_was_read(#[trigger] readings@[j]))
            ==> r is Ok,
        r is Ok ==> {
            let module = r->Ok_0@[i];
            &&& r->Ok_0@.len() == readings@.len()
            &&& readings@[i].status == Ok::<_, String>((module.module_id, module.daemon_observed))
            &&& readings@[i].declared matches Ok(Some(build)) ==> module.module_declared
                == ModuleDeclaredProvenance::Reported { build }
            &&& readings@[i].declared matches Ok(None) ==> module.module_declared
                == ModuleDeclaredProvenance::<B>::Unverifiable
            &&& readings@[i].declared is Ok
        },
{
    provenances_are_read_in_order(readings@, corr);
    if r is Ok {
        assert(provenance_was_read(readings@[i]));
        let _ = r->Ok_0@[i];
    }
}

/// A status is told with the warming flag read beside it; a warming flag that
/// could not be read hides the status.
pub proof fn a_status_comes_with_its_warming_flag<S>(
    warming: Result<bool, String>,
    status: Result<S, String>,
    module_id: &str,
    corr: u64,
    r: Result<(S, bool), RouterError>,
)
    requires
        call_ensures(supervisor_status::<S>, (warming, status, module_id, corr), r),
    ensures
        warming is Ok && status is Ok ==> r == Ok::<_, RouterError>(
            (status->Ok_0, warming->Ok_0),
        ),
        warming matches Err(text) ==> r is Err && faults(
            r->Err_0,
            corr,
            "failed to read supervisor warming state for module_id '"@ + module_id@ + "': "@
                + text@,
        ),
        warming is Ok ==> (status matches Err(text) ==> r is Err && faults(
            r->Err_0,
            corr,
            "failed to read supervisor status for module_id '"@ + module_id@ + "': "@ + text@,
        )),
{
}

/// The running and the registered modules are handed on as they were read, the
/// running ones read first.
pub proof fn a_snapshot_holds_what_was_read<R, G>(
    running: Vec<Result<R, String>>,
    registered: Result<Vec<G>, String>,
    r: Result<(Vec<R>, Vec<G>), RouterError>,
    i: int,
)
    requires
        call_ensures(runtime_capability_snapshot::<R, G>, (running, registered), r),
    ensures
        r matches Ok((a, b)) ==> a@.len() == running@.len() && registered is Ok && b@
            == registered->Ok_0@ && (0 <= i < running@.len() ==> running@[i] == Ok::<R, String>(
            a@[i],
        )),
        registered is Ok && (forall|j: int|
            0 <= j < running@.len() ==> (#[trigger] running@[j]) is Ok) ==> r is Ok,
        first_failure(running@, i) ==> r is Err && faults(
            r->Err_0,
            0,
            "failed to read capability status: "@ + running@[i]->Err_0@,
        ),
        (forall|j: int| 0 <= j < running@.len() ==> (#[trigger] running@[j]) is Ok) ==> (
        registered matches Err(text) ==> r is Err && faults(
            r->Err_0,
            0,
            "failed to list capability registrations: "@ + text@,
        )),
{
    let what = "failed to read capability status: "@;
    readings_are_read_in_order(running@, what);
    if all_read(running@, what) is Err {
        let first = choose|j: int| #[trigger]
            first_failure(running@, j) && all_read(running@, what)->Err_0 == what
                + running@[j]->Err_0@;
        if first_failure(running@, i) {
            one_first_failure(running@, i, first);
        }
    }
}

/// The state of each required capability is told field by field, with the need in
/// its word.
pub proof fn a_requirement_is_told_as_it_is(
    statuses: Vec<RequirementStatus>,
    r: Vec<CapabilityRequirementStatus>,
    i: int,
)
    requires
        call_ensures(capability_requirement_statuses, (statuses,), r),
        0 <= i < statuses@.len(),
    ensures
        r@.len() == statuses@.len(),
        r@[i].consumer == statuses@[i].consumer,
        r@[i].capability == statuses@[i].capability,
        r@[i].verdict == statuses@[i].verdict,
        r@[i].episode_seq == statuses@[i].episode_seq,
        r@[i].config_satisfiable == statuses@[i].config_satisfiable,
        r@[i].runtime_available == statuses@[i].runtime_available,
        r@[i].detail == statuses@[i].detail,
        statuses@[i].need is Required ==> r@[i].need@ == "required"@,
        statuses@[i].need is Optional ==> r@[i].need@ == "optional"@,
{
    let _ = r@[i];
}

/// Only a module that the supervisor knows passes; any other is named in the
/// refusal.
pub proof fn only_a_supervised_module_passes(
    module_id: &str,
    supervised: bool,
    r: Option<ErrorBody>,
)
    requires
        call_ensures(supervised_gate, (module_id, supervised), r),
    ensures
        supervised ==> r is None,
        !supervised ==> r is Some && tells(
            r->0,
            "unknown_module"@,
            "module_id '"@ + module_id@ + "' is not supervised"@,
        ),
{
}

/// What is held of a module is told under its id.
pub proof fn what_is_held_is_told_under_its_id<T>(
    module_id: String,
    held: Option<T>,
    r: Result<OfModule<T>, ErrorBody>,
)
    requires
        call_ensures(supervised_answer::<T>, (module_id, held), r),
    ensures
        held matches Some(value) ==> r is Ok && r->Ok_0.module_id == module_id && r->Ok_0.held
            == value,
        held is None ==> r is Err && tells(
            r->Err_0,
            "unknown_module"@,
            "module_id '"@ + module_id@ + "' is not supervised"@,
        ),
{
}

/// A tail is told line by line as it was kept: each line's text and whether it was
/// cut, where a process started, how many lines were dropped and how whole the
/// capture is.
pub proof fn a_tail_is_told_as_it_was_kept(
    module_id: String,
    tail: Option<TailSnapshot>,
    r: Result<OfModule<StderrTail>, ErrorBody>,
    i: int,
)
    requires
        call_ensures(stderr_tail_answer, (module_id, tail), r),
    ensures
        tail is None ==> r is Err && tells(
            r->Err_0,
            "unknown_module"@,
            "module_id '"@ + module_id@ + "' is not supervised"@,
        ),
        tail matches Some(kept) ==> r is Ok && {
            let told = r->Ok_0.held;
            &&& r->Ok_0.module_id == module_id
            &&& told.dropped_lines == kept.dropped_lines
            &&& told.entries@.len() == kept.entries@.len()
            &&& 0 <= i < kept.entries@.len() ==> (kept.entries@[i] matches TailEntry::Line {
                text,
                truncated,
            } ==> told.entries@[i] == (StderrTailEntry::Line { text, truncated }))
            &&& 0 <= i < kept.entries@.len() ==> (kept.entries@[i] is ProcessStart
                ==> told.entries@[i] is ProcessStart)
            &&& kept.capture is Captured ==> told.capture is Captured
            &&& kept.capture matches CaptureState::Incomplete { reason } ==> told.capture == (
            StderrCaptureState::Incomplete { reason })
            &&& kept.capture matches CaptureState::NotCaptured { reason } ==> told.capture == (
            StderrCaptureState::NotCaptured { reason })
        },
{
}

/// A restart that was made is acknowledged as applied; a disabled module refuses
/// it in the supervisor's words, and any other failure names the module.
pub proof fn a_restart_is_acknowledged_or_refused(
    outcome: Result<(), SuperviseFailure>,
    module_id: String,
    r: Result<SupervisorAck, ErrorBody>,
)
    requires
        call_ensures(restart_answer, (outcome, module_id), r),
    ensures
        outcome is Ok ==> r is Ok && r->Ok_0.module_id == module_id && r->Ok_0.applied,
        outcome matches Err(SuperviseFailure::Disabled(text)) ==> r is Err && tells(
            r->Err_0,
            "module_disabled"@,
            text@,
        ),
        outcome matches Err(SuperviseFailure::Other(text)) ==> r is Err && tells(
            r->Err_0,
            "target_unavailable"@,
            "failed to "@ + "restart"@ + " module_id '"@ + module_id@ + "': "@ + text@,
        ),
{
}

/// A reload that was made is acknowledged as applied; a disabled module refuses
/// it in the supervisor's words, and any other failure names the module.
pub proof fn a_reload_is_acknowledged_or_refused(
    outcome: Result<(), SuperviseFailure>,
    module_id: String,
    r: Result<SupervisorAck, ErrorBody>,
)
    requires
        call_ensures(reload_answer, (outcome, module_id), r),
    ensures
        outcome is Ok ==> r is Ok && r->Ok_0.module_id == module_id && r->Ok_0.applied,
        outcome matches Err(SuperviseFailure::Disabled(text)) ==> r is Err && tells(
            r->Err_0,
            "module_disabled"@,
            text@,
        ),
        outcome matches Err(SuperviseFailure::Other(text)) ==> r is Err && tells(
            r->Err_0,
            "reload_failed"@,
            "failed to "@ + "reload"@ + " module_id '"@ + module_id@ + "': "@ + text@,
        ),
{
}

/// Switching a module is acknowledged with whether it changed anything; a failure
/// names the module and the state that was asked for.
pub proof fn a_switch_is_acknowledged_or_refused(
    outcome: Result<bool, String>,
    module_id: String,
    enabled: bool,
    r: Result<SupervisorAck, ErrorBody>,
)
    requires
        call_ensures(set_enabled_answer, (outcome, module_id, enabled), r),
    ensures
        outcome matches Ok(applied) ==> r is Ok && r->Ok_0.module_id == module_id
            && r->Ok_0.applied == applied,
        outcome matches Err(text) ==> r is Err && (enabled ==> tells(
            r->Err_0,
            "target_unavailable"@,
            "failed to set module_id '"@ + module_id@ + "' enabled="@ + "true"@ + ": "@ + text@,
        )) && (!enabled ==> tells(
            r->Err_0,
            "target_unavailable"@,
            "failed to set module_id '"@ + module_id@ + "' enabled="@ + "false"@ + ": "@ + text@,
        )),
{
}

/// A subscription to the spawns is opened, refused with the cursor to use instead,
/// or ends in a fault.
pub proof fn a_subscription_is_opened_or_refused(
    outcome: Result<(), SpawnSubscribeRefusal>,
    corr: u64,
    r: Result<Option<ErrorBody>, RouterError>,
)
    requires
        call_ensures(spawn_subscribe_answer, (outcome, corr), r),
    ensures
        outcome is Ok ==> r matches Ok(None),
        outcome matches Err(SpawnSubscribeRefusal::ForeignIncarnation { current }) ==> (
        r matches Ok(Some(e)) && e.code@ == "spawn_cursor_incarnation_mismatch"@ && e.message@
            == "spawn cursor belongs to a different daemon incarnation"@ && (
        e.detail matches Some(ErrorDetail::Field { name, value }) && name@
            == "current_daemon_incarnation"@ && value@ == current@)),
        outcome matches Err(SpawnSubscribeRefusal::TooOld { oldest }) ==> (
        r matches Ok(Some(e)) && e.code@ == "spawn_cursor_too_old"@ && e.message@
            == "spawn cursor predates the retained event ring"@ && (
        e.detail matches Some(ErrorDetail::Nested { name, json }) && name@
            == "oldest_retained_cursor"@ && json@ == oldest@)),
        outcome matches Err(SpawnSubscribeRefusal::Frame(text)) ==> r is Err && faults(
            r->Err_0,
            corr,
            "failed to open supervisor spawn subscription: "@ + text@,
        ),
{
}

proof fn the_first_failed_provenance_decides<B, O>(
    readings: Seq<ProvenanceReading<B, O>>,
    corr: u64,
    i: int,
)
    requires
        0 <= i < readings.len(),
        !provenance_was_read(readings[i]),
        forall|j: int| 0 <= j < i ==> provenance_was_read(#[trigger] readings[j]),
    ensures
        provenance_of(readings, corr) == provenance_of(readings.take(i + 1), corr),
    decreases readings.len(),
{
    let last = readings.len() - 1;
    if i < last {
        let before = readings.drop_last();
        assert(before[i] == readings[i]);
        assert forall|j: int| 0 <= j < i implies provenance_was_read(#[trigger] before[j]) by {
            assert(before[j] == readings[j]);
        }
        the_first_failed_provenance_decides(before, corr, i);
        assert(before.take(i + 1) =~= readings.take(i + 1));
        let head = readings.take(i + 1);
        provenances_are_read_in_order(head, corr);
        if provenance_of(head, corr) is Ok {
            let _ = provenance_of(head, corr)->Ok_0[i];
            assert(head[i] == readings[i]);
        }
    } else {
        assert(readings.take(i + 1) =~= readings);
    }
}

/// Of several provenances the first that could not be read is the one that is told.
pub proof fn the_first_failed_provenance_is_told<B, O>(
    readings: Vec<ProvenanceReading<B, O>>,
    corr: u64,
    r: Result<Vec<SupervisorModuleProvenance<B, O>>, RouterError>,
    i: int,
)
    requires
        call_ensures(supervisor_provenance::<B, O>, (readings, corr), r),
        0 <= i < readings@.len(),
        !provenance_was_read(readings@[i]),
        forall|j: int| 0 <= j < i ==> provenance_was_read(#[trigger] readings@[j]),
    ensures
        readings@[i].status matches Err(text) ==> r is Err && faults(
            r->Err_0,
            corr,
            "failed to read supervisor status: "@ + text@,
        ),
        readings@[i].status is Ok ==> (readings@[i].declared matches Err(text) ==> r is Err
            && faults(r->Err_0, corr, text@)),
{
    the_first_failed_provenance_decides(readings@, corr, i);
    let head = readings@.take(i + 1);
    let before = head.drop_last();
    assert(head.last() == readings@[i]);
    assert forall|j: int| 0 <= j < before.len() implies provenance_was_read(
        #[trigger] before[j],
    ) by {
        assert(before[j] == readings@[j]);
    }
    provenances_are_read_in_order(before, corr);
}

} // verus!
