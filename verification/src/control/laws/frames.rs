//! What holds of every frame on channel 0: where it goes and how it is answered.
use crate::control::answers::{faults, tells};
use crate::control::dispatch::{
    cancel_answer, client_control_request_op, dispatch_control_frame, route_open_target,
    route_poll_answer, slow_dispatch_ms, status_update_step, ClientRequestKind, ControlFrameFacts,
    ControlStep, PollKind, RoutePollAnswer, RoutePollSnapshot, RouteStatus, StatusStep,
};
use crate::control::fault::{ForwardingError, RouterError};
use crate::control::health_probe::{
    health_probe_gate, settle_health_probe, ProbeAnswer, ProbeEnd, ProbeGate, ProbeSettled,
};
use crate::control::laws::opening::named;
use crate::control::manifest::RouteTarget;
use crate::control::ops::{
    baseline_op_names, classify_client_body, classify_module_body, effective_module_control_ops,
    first_occurrences_keep_every_element_once, first_occurrences_of_distinct, module_subc_ops, module_to_subc_op_names,
    subc_op_names, subc_ops, ControlRequestBodyError,
};
use crate::control::relay_response::{
    bind_settled, module_answer_step, observe_module_control_completion, BindCompletion,
    BindSettled, ModuleAnswerFacts, ModuleAnswerStep, ModuleControlResponse,
    ModuleControlRpcCompletion, ModuleControlRpcOutcome, ObservedCompletion, RouteBindRelayOutcome,
};
use crate::control::wire::{
    control_answer_header, goodbye_header, module_request_header, negotiate_version, pong,
    ErrorBody, FrameFlags, FrameHeader, FrameType,
};
use crate::span::{duration_words, Span};
use crate::text::{decimal, texts};
use vstd::prelude::*;

verus! {

/// An answer goes back on channel 0 under the request's correlation id, in the peer's
/// version where that is the daemon's and in the daemon's own otherwise.
pub proof fn an_answer_goes_back_to_its_request(
    request: &FrameHeader,
    ty: FrameType,
    r: FrameHeader,
)
    requires
        call_ensures(control_answer_header, (request, ty), r),
    ensures
        r.ty == ty,
        r.corr == request.corr,
        r.channel == 0,
        r.epoch == 0,
        r.flags == FrameFlags::Control,
        r.ver == 2,
{
}

/// A ping is answered by a pong of its own flags and correlation id.
pub proof fn a_ping_is_answered_in_kind(ping: &FrameHeader, r: FrameHeader)
    requires
        call_ensures(pong, (ping,), r),
    ensures
        r.ty == FrameType::Pong,
        r.corr == ping.corr,
        r.flags == ping.flags,
        r.channel == 0,
        r.epoch == 0,
        r.ver == 2,
{
}

/// A request to a module and a GOODBYE carry the version that was negotiated; the
/// request its own correlation id, the GOODBYE its own channel and epoch.
pub proof fn what_the_daemon_sends_of_its_own(
    negotiated_ver: u8,
    corr: u64,
    request: FrameHeader,
    channel: u16,
    epoch: u32,
    goodbye: FrameHeader,
)
    requires
        call_ensures(module_request_header, (negotiated_ver, corr), request),
        call_ensures(goodbye_header, (negotiated_ver, channel, epoch), goodbye),
    ensures
        request.ver == negotiated_ver,
        request.ty == FrameType::Request,
        request.flags == FrameFlags::Control,
        request.channel == 0,
        request.epoch == 0,
        request.corr == corr,
        goodbye.ver == negotiated_ver,
        goodbye.ty == FrameType::Goodbye,
        goodbye.flags == FrameFlags::Control,
        goodbye.channel == channel,
        goodbye.epoch == epoch,
        goodbye.corr == 0,
{
}

/// Only a peer of the daemon's own version is taken; any other is told both.
pub proof fn only_one_version_is_spoken(peer_version: u8, r: Result<u8, String>)
    requires
        call_ensures(negotiate_version, (peer_version,), r),
    ensures
        peer_version == 2 ==> r == Ok::<u8, String>(2u8),
        peer_version != 2 ==> r is Err && r->Err_0@ == "protocol_ver "@ + decimal(
            peer_version as nat,
        ) + " is unsupported; this daemon requires exactly "@ + decimal(2),
{
}

/// The step is a refusal of this code and message.
pub open spec fn refused(step: ControlStep, code: Seq<char>, message: Seq<char>) -> bool {
    step matches ControlStep::Refused(e) && tells(e, code, message)
}

/// The body names the one request that modules make.
pub open spec fn names_update(op: Option<String>) -> bool {
    op matches Some(op) && op@ == "catalog.update"@
}

/// A ping, a HELLO, a GOODBYE and a cancel go where they belong whoever sent them.
/// A module's answer and its status go on; a client's do not.
pub proof fn where_a_frame_goes(ty: FrameType, facts: ControlFrameFacts, r: ControlStep)
    requires
        call_ensures(dispatch_control_frame, (ty, facts), r),
    ensures
        ty == FrameType::Ping ==> r is Pong,
        ty == FrameType::Hello ==> r is Hello,
        ty == FrameType::Goodbye ==> r is Goodbye,
        ty == FrameType::Cancel ==> r is Cancel,
        ty == FrameType::HelloAck ==> refused(
            r,
            "unsupported_control_frame"@,
            "unsupported channel-0 frame "@ + "HelloAck"@,
        ),
        ty == FrameType::Pong ==> refused(
            r,
            "unsupported_control_frame"@,
            "unsupported channel-0 frame "@ + "Pong"@,
        ),
        ty == FrameType::Request || ty == FrameType::Push || ty == FrameType::Response || ty
            == FrameType::Error ==> (facts.from_module matches Err(err) ==> r == ControlStep::Fault(
            RouterError::Forwarding(err),
        )),
        facts.from_module == Ok::<bool, ForwardingError>(true) ==> {
            &&& ty == FrameType::Push ==> r is StatusUpdate
            &&& ty == FrameType::Response || ty == FrameType::Error ==> r is ModuleAnswer
        },
        facts.from_module == Ok::<bool, ForwardingError>(false) ==> {
            &&& ty == FrameType::Push ==> refused(
                r,
                "unsupported_control_frame"@,
                "client-originated channel-0 PUSH is not supported"@,
            )
            &&& ty == FrameType::Response ==> refused(
                r,
                "unsupported_control_frame"@,
                "unsupported channel-0 frame "@ + "Response"@,
            )
            &&& ty == FrameType::Error ==> refused(
                r,
                "unsupported_control_frame"@,
                "unsupported channel-0 frame "@ + "Error"@,
            )
        },
{
}

/// A module may ask for an update of its catalog and for nothing else; a client may
/// ask for everything but that. A body that cannot be read is told apart from an
/// operation that does not exist.
pub proof fn who_may_ask_for_what(facts: ControlFrameFacts, r: ControlStep)
    requires
        call_ensures(dispatch_control_frame, (FrameType::Request, facts), r),
    ensures
        facts.from_module == Ok::<bool, ForwardingError>(true) ==> {
            &&& !names_update(facts.op) ==> refused(
                r,
                "unsupported_control_frame"@,
                "module-originated channel-0 REQUEST is not supported"@,
            )
            &&& names_update(facts.op) && facts.module_request_error is None ==> r is CatalogUpdate
            &&& names_update(facts.op) ==> (facts.module_request_error matches Some(text)
                ==> refused(
                r,
                "invalid_control_body"@,
                "malformed module control body: "@ + text@,
            ))
        },
        facts.from_module == Ok::<bool, ForwardingError>(false) ==> {
            &&& names_update(facts.op) ==> refused(
                r,
                "not_registered"@,
                "catalog.update requires an active module registration owned by this connection"@,
            )
            &&& !names_update(facts.op) ==> (facts.client_request matches Ok(kind) ==> r
                == ControlStep::Client(kind))
            &&& !names_update(facts.op) ==> (facts.client_request matches Err(text) ==> (if (
            facts.op matches Some(op) && !subc_op_names().contains(op@)) {
                refused(r, "unknown_control_op"@, "unknown client control op: "@ + text@)
            } else {
                refused(
                    r,
                    "invalid_control_body"@,
                    "malformed client control body: "@ + text@,
                )
            }))
        },
{
    let names = module_to_subc_op_names();
    assert(names[0] == "catalog.update"@);
    if facts.op is Some && names.contains(facts.op->0@) {
        let k = choose|k: int| 0 <= k < names.len() && names[k] == facts.op->0@;
        assert(k == 0);
    }
}

/// Each request of a client goes by its own name on the wire.
pub proof fn each_request_goes_by_its_name(kind: ClientRequestKind, r: &'static str)
    requires
        call_ensures(client_control_request_op, (kind,), r),
    ensures
        kind is ServerDescribe ==> r@ == "server.describe"@,
        kind is CatalogList ==> r@ == "catalog.list"@,
        kind is RouteOpen ==> r@ == "route.open"@,
        kind is RoutePoll ==> r@ == "route.poll"@,
        kind is SupervisorList ==> r@ == "supervisor.list"@,
        kind is SupervisorSpawnSnapshot ==> r@ == "supervisor.spawn_snapshot"@,
        kind is SupervisorSpawnSubscribe ==> r@ == "supervisor.spawn_subscribe"@,
        kind is SupervisorRestart ==> r@ == "supervisor.restart"@,
        kind is SupervisorReload ==> r@ == "supervisor.reload"@,
        kind is SupervisorRescan ==> r@ == "supervisor.rescan"@,
        kind is SupervisorReleaseReserved ==> r@ == "supervisor.release_reserved"@,
        kind is SupervisorSetEnabled ==> r@ == "supervisor.set_enabled"@,
        kind is SupervisorHealthProbe ==> r@ == "supervisor.health_probe"@,
        kind is SupervisorHealth ==> r@ == "supervisor.health"@,
        kind is SupervisorRoutes ==> r@ == "supervisor.routes"@,
        kind is SupervisorProvenance ==> r@ == "supervisor.provenance"@,
        kind is SupervisorStderrTail ==> r@ == "supervisor.stderr_tail"@,
        kind is SupervisorTerminals ==> r@ == "supervisor.terminals"@,
{
}

/// Every operation that a client can name is among those that the daemon serves, and
/// a module is told of those and of its own.
pub proof fn every_request_is_served(
    kind: ClientRequestKind,
    name: &'static str,
    served: Vec<String>,
    told: Vec<String>,
)
    requires
        call_ensures(client_control_request_op, (kind,), name),
        call_ensures(subc_ops, (), served),
        call_ensures(module_subc_ops, (), told),
    ensures
        texts(served@).contains(name@),
        texts(told@).contains(name@),
        texts(told@).contains("catalog.update"@),
        texts(served@) == seq![
            "server.describe"@,
            "catalog.list"@,
            "route.open"@,
            "route.poll"@,
            "route.closing"@,
            "route.closed"@,
            "supervisor.list"@,
            "supervisor.restart"@,
            "supervisor.reload"@,
            "supervisor.rescan"@,
            "supervisor.release_reserved"@,
            "supervisor.set_enabled"@,
            "supervisor.health_probe"@,
            "supervisor.health"@,
            "supervisor.stderr_tail"@,
            "supervisor.terminals"@,
            "supervisor.routes"@,
            "supervisor.provenance"@,
            "supervisor.spawn_snapshot"@,
            "supervisor.spawn_subscribe"@,
        ],
        told@.len() == served@.len() + 1,
{
    crate::control::dispatch::every_request_is_listed(kind);
    let all = subc_op_names();
    let more = all + module_to_subc_op_names();
    let k = choose|k: int| 0 <= k < all.len() && all[k] == name@;
    assert(more[k] == name@);
    assert(more[all.len() as int] == "catalog.update"@);
    assert(texts(served@).len() == served@.len());
    assert(texts(told@).len() == told@.len());
}

/// A module may be asked for a bind and for its status whatever it declared, and for
/// all that it declared; nothing is listed twice.
pub proof fn what_a_module_may_be_asked(
    declared: Option<Vec<String>>,
    r: Vec<String>,
    i: int,
    j: int,
)
    requires
        call_ensures(effective_module_control_ops, (declared,), r),
    ensures
        texts(r@).contains("route.bind"@),
        texts(r@).contains("route.status"@),
        declared matches Some(list) ==> (0 <= i < list@.len() ==> texts(r@).contains(
            list@[i]@,
        )),
        0 <= i < r@.len() ==> r@[i]@ == "route.bind"@ || r@[i]@ == "route.status"@ || (
        declared matches Some(list) && texts(list@).contains(r@[i]@)),
        declared is Some && 0 <= i < j < r@.len() ==> r@[i]@ != r@[j]@,
        declared is None ==> r@.len() == 2,
        declared matches Some(list) ==> (list@.len() == 0 ==> r@.len() == 2),
{
    let base = baseline_op_names();
    reveal_strlit("route.bind");
    reveal_strlit("route.status");
    assert("route.bind"@.len() != "route.status"@.len());
    assert(base.no_duplicates());
    first_occurrences_of_distinct(base);
    if declared is Some && declared->0@.len() == 0 {
        assert(base + texts(declared->0@) =~= base);
    }
    assert(texts(r@).len() == r@.len());
    assert(base[0] == "route.bind"@ && base[1] == "route.status"@);
    if declared is Some {
        let list = texts(declared->0@);
        let all = base + list;
        first_occurrences_keep_every_element_once(all);
        assert(all[0] == base[0] && all[1] == base[1]);
        assert(all.contains(base[0]) && all.contains(base[1]));
        if 0 <= i < declared->0@.len() {
            assert(all[2 + i] == declared->0@[i]@);
            assert(all.contains(declared->0@[i]@));
        }
        if 0 <= i < r@.len() {
            assert(texts(r@)[i] == r@[i]@);
            assert(texts(r@).contains(r@[i]@));
            assert(all.contains(r@[i]@));
            let k = choose|k: int| 0 <= k < all.len() && all[k] == r@[i]@;
            if k >= 2 {
                assert(list[k - 2] == r@[i]@);
            } else {
                assert(k == 0 || k == 1);
            }
        }
        if 0 <= i < j < r@.len() {
            assert(texts(r@)[i] == r@[i]@ && texts(r@)[j] == r@[j]@);
        }
    } else {
        assert(texts(r@) == base);
        if 0 <= i < r@.len() {
            assert(texts(r@)[i] == r@[i]@);
            assert(i == 0 || i == 1);
        }
    }
}

/// A body without an operation, or with one that is served, is malformed; only an
/// operation that is not served is unknown.
pub proof fn an_unknown_op_is_not_a_malformed_body(
    op: Option<&str>,
    client: ControlRequestBodyError,
    module: ControlRequestBodyError,
)
    requires
        call_ensures(classify_client_body, (op,), client),
        call_ensures(classify_module_body, (op,), module),
    ensures
        op is None ==> client is InvalidBody && module is InvalidBody,
        op matches Some(op) ==> {
            &&& client is UnknownOp <==> !subc_op_names().contains(op@)
            &&& module is UnknownOp <==> op@ != "catalog.update"@
        },
{
    let names = module_to_subc_op_names();
    assert(names[0] == "catalog.update"@);
    if op is Some && names.contains(op->0@) {
        let k = choose|k: int| 0 <= k < names.len() && names[k] == op->0@;
        assert(k == 0);
    }
}

/// A request on channel 0 opens the target that it names; no other frame does.
pub proof fn only_a_control_request_opens_a_route(
    header: &FrameHeader,
    target: Option<&RouteTarget>,
    r: Option<String>,
)
    requires
        call_ensures(route_open_target, (header, target), r),
    ensures
        header.channel != 0 || header.ty != FrameType::Request || target is None ==> r is None,
        header.channel == 0 && header.ty == FrameType::Request ==> (target matches Some(target)
            ==> r is Some && r->0@ == named(*target)),
{
}

/// A cancel that met its subscription is silent; any other is told so.
pub proof fn a_cancel_that_met_nothing_is_told(cancelled: bool, r: Option<ErrorBody>)
    requires
        call_ensures(cancel_answer, (cancelled,), r),
    ensures
        cancelled ==> r is None,
        !cancelled ==> r is Some && tells(
            r->0,
            "unknown_subscription"@,
            "no supervisor spawn subscription has this correlation id"@,
        ),
{
}

/// A status that could be read is kept as it came; one that could not is refused where
/// it names itself a status, and passed over otherwise.
pub proof fn a_status_is_kept_as_it_came<T>(
    push: Result<RouteStatus<T>, String>,
    op: Option<&str>,
    r: StatusStep<T>,
)
    requires
        call_ensures(status_update_step::<T>, (push, op), r),
    ensures
        push matches Ok(status) ==> (r matches StatusStep::Cache(kept) && kept.route_channel
            == status.route_channel && kept.route_epoch == status.route_epoch && kept.status
            == status.status),
        push matches Err(text) ==> {
            &&& op is Some && op->0@ == "route.status"@ ==> (r matches StatusStep::Refused(e)
                && tells(
                e,
                "invalid_control_body"@,
                "malformed module control push body: "@ + text@,
            ))
            &&& op is None || op->0@ != "route.status"@ ==> r is Ignore
        },
{
}

/// A dispatch is slow from one second on, and is told in milliseconds.
pub proof fn a_dispatch_is_slow_from_a_second_on(elapsed: Option<Span>, r: Option<u64>)
    requires
        call_ensures(slow_dispatch_ms, (elapsed,), r),
    ensures
        elapsed is None ==> r is None,
        elapsed matches Some(span) ==> {
            &&& span@ < 1_000_000_000 ==> r is None
            &&& span@ >= 1_000_000_000 && span@ / 1_000_000 <= u64::MAX ==> r is Some && r->0
                == span@ / 1_000_000
        },
{
}

/// A poll is answered for its own channel and epoch: for the status with what was last
/// kept, for liveness with whether the route is bound and its process not known to be
/// dead.
pub proof fn a_poll_is_answered_for_its_route<T>(
    route_channel: u16,
    route_epoch: u32,
    kind: PollKind,
    snapshot: RoutePollSnapshot<T>,
    process_live: Option<bool>,
    r: RoutePollAnswer<T>,
)
    requires
        call_ensures(
            route_poll_answer::<T>,
            (route_channel, route_epoch, kind, snapshot, process_live),
            r,
        ),
    ensures
        r.route_channel == route_channel,
        r.route_epoch == route_epoch,
        kind is Status ==> r.live is None && (snapshot is Absent ==> r.status is None) && (
        snapshot matches RoutePollSnapshot::Bound { status, .. } ==> r.status == status),
        kind is Liveness ==> r.status is None && (snapshot is Absent ==> r.live == Some(false)) && (
        snapshot is Bound && process_live == Some(false) ==> r.live == Some(false)) && (
        snapshot is Bound && process_live != Some(false) ==> r.live == Some(true)),
{
}

/// The relay is settled as gone, with this text also told to the module.
pub open spec fn unusable<H, M>(step: ModuleAnswerStep<H, M>, message: Seq<char>) -> bool {
    step matches ModuleAnswerStep::Bind { outcome, complaint } && (
    outcome matches RouteBindRelayOutcome::ModuleGone(text) && text@ == message) && (
    complaint matches Some(e) && tells(e, "invalid_control_body"@, message))
}

/// A response settles the exchange that it names: a bind is accepted by an
/// acknowledgement and by nothing else, and any other request gets the response.
pub proof fn what_a_response_settles<H, M>(facts: ModuleAnswerFacts<H, M>, r: ModuleAnswerStep<H, M>)
    requires
        call_ensures(module_answer_step::<H, M>, (FrameType::Response, facts), r),
    ensures
        facts.op matches Ok(op) ==> {
            &&& op@ == "route.bind"@ ==> {
                &&& facts.response matches Ok(decoded) ==> {
                    &&& decoded.response is RouteBindAck ==> (r matches ModuleAnswerStep::Bind {
                        outcome,
                        complaint,
                    } && outcome is Accepted && complaint is None)
                    &&& !(decoded.response is RouteBindAck) ==> unusable(
                        r,
                        "route.bind response carried unexpected body: "@ + decoded.rendered@,
                    )
                }
                &&& facts.response matches Err(text) ==> unusable(
                    r,
                    "malformed route.bind response body: "@ + text@,
                )
            }
            &&& op@ != "route.bind"@ ==> {
                &&& r is Rpc && r->Rpc_op is Some && r->Rpc_op->0@ == op@
                &&& facts.response matches Ok(decoded) ==> r->Rpc_outcome
                    == ModuleControlRpcOutcome::Response(decoded.response)
                &&& facts.response matches Err(text) ==> (
                r->Rpc_outcome matches ModuleControlRpcOutcome::MalformedResponse(said) && said@
                    == "malformed "@ + op@ + " response body: "@ + text@)
            }
        },
        facts.op matches Err(text) ==> {
            &&& facts.pending_op matches Err(err) ==> r == ModuleAnswerStep::<H, M>::Fault(
                RouterError::Forwarding(err),
            )
            &&& facts.pending_op matches Ok(Some(expected)) ==> (r matches ModuleAnswerStep::Rpc {
                op,
                outcome,
            } && op is None && (outcome matches ModuleControlRpcOutcome::MalformedResponse(said)
                && said@ == "malformed "@ + expected@ + " response body: "@ + text@))
            &&& facts.pending_op matches Ok(None) ==> unusable(
                r,
                "malformed route.bind response body: "@ + text@,
            )
        },
{
}

/// An error settles the request that is pending, or else the bind, as refused in the
/// module's own words.
pub proof fn what_an_error_settles<H, M>(facts: ModuleAnswerFacts<H, M>, r: ModuleAnswerStep<H, M>)
    requires
        call_ensures(module_answer_step::<H, M>, (FrameType::Error, facts), r),
    ensures
        facts.pending_op matches Err(err) ==> r == ModuleAnswerStep::<H, M>::Fault(
            RouterError::Forwarding(err),
        ),
        facts.pending_op matches Ok(Some(_)) ==> (r matches ModuleAnswerStep::Rpc { op, outcome }
            && op is None && (facts.error matches Ok(body) ==> (
        outcome matches ModuleControlRpcOutcome::Rejected(told) && told@ == body@)) && (
        facts.error matches Err(text) ==> (
        outcome matches ModuleControlRpcOutcome::MalformedResponse(said) && said@
            == "malformed module-control ERROR body: "@ + text@))),
        facts.pending_op matches Ok(None) ==> {
            &&& facts.error matches Ok(body) ==> (r matches ModuleAnswerStep::Bind {
                outcome,
                complaint,
            } && complaint is None && (outcome matches RouteBindRelayOutcome::Rejected(told)
                && told@ == body@))
            &&& facts.error matches Err(text) ==> unusable(
                r,
                "malformed route.bind ERROR body: "@ + text@,
            )
        },
{
}

/// A settled bind hands the module its complaint, and a GOODBYE where nobody waits for
/// the route any more.
pub proof fn an_abandoned_bind_is_told_goodbye(
    module_connection_id: u64,
    completion: BindCompletion,
    complaint: Option<ErrorBody>,
    r: Result<BindSettled, RouterError>,
)
    requires
        call_ensures(bind_settled, (module_connection_id, Ok(completion), complaint), r),
    ensures
        r is Ok,
        r->Ok_0.answer == complaint,
        r->Ok_0.goodbye == completion.abandoned,
{
}

/// A bind whose client is closing is no fault of the module's connection; any other
/// failure is.
pub proof fn a_client_that_went_away_ends_no_module(
    module_connection_id: u64,
    err: ForwardingError,
    complaint: Option<ErrorBody>,
    r: Result<BindSettled, RouterError>,
)
    requires
        call_ensures(bind_settled, (module_connection_id, Err(err), complaint), r),
    ensures
        err matches ForwardingError::ConnectionClosing { connection_id } ==> (connection_id
            != module_connection_id ==> r is Ok && r->Ok_0.answer == complaint
            && !r->Ok_0.goodbye) && (connection_id == module_connection_id ==> r == Err::<
            BindSettled,
            _,
        >(RouterError::Forwarding(err))),
        !(err is ConnectionClosing) ==> r == Err::<BindSettled, _>(RouterError::Forwarding(err)),
{
}

/// An answer to a probe that came late is noted with its module and its latency; an
/// exchange that nobody knows is unknown.
pub proof fn a_late_answer_is_noted(completion: ModuleControlRpcCompletion, r: ObservedCompletion)
    requires
        call_ensures(observe_module_control_completion, (completion,), r),
    ensures
        completion is Unknown ==> !r.known && r.late is None,
        completion is Settled ==> r.known && r.late is None,
        completion matches ModuleControlRpcCompletion::LateHealthAnswer { module_id, latency }
            ==> r.known && r.late is Some && r.late->0.module_id == module_id && (latency@
            / 1_000_000 <= u64::MAX ==> r.late->0.latency_ms == latency@ / 1_000_000) && (latency@
            / 1_000_000 > u64::MAX ==> r.late->0.latency_ms == u64::MAX),
{
}

/// A registered module is probed exactly where it declared the check.
pub proof fn only_a_module_that_declared_it_is_probed(
    control_ops: Result<Option<Vec<String>>, String>,
    module_id: &str,
    corr: u64,
    r: ProbeGate,
)
    requires
        call_ensures(health_probe_gate, (control_ops, module_id, corr), r),
    ensures
        control_ops matches Err(text) ==> (r matches ProbeGate::Fault(fault) && faults(
            fault,
            corr,
            text@,
        )),
        control_ops matches Ok(None) ==> (r matches ProbeGate::Refused(e) && tells(
            e,
            "unknown_module"@,
            "module_id '"@ + module_id@ + "' is not registered"@,
        )),
        control_ops matches Ok(Some(ops)) ==> {
            &&& texts(ops@).contains("health.check"@) ==> r is Send
            &&& !texts(ops@).contains("health.check"@) ==> (r matches ProbeGate::Refused(e)
                && tells(
                e,
                "health_not_advertised"@,
                "module_id '"@ + module_id@ + "' did not advertise health.check"@,
            ))
        },
{
    let base = baseline_op_names();
    assert(base[0] == "route.bind"@ && base[1] == "route.status"@);
    reveal_strlit("route.bind");
    reveal_strlit("route.status");
    reveal_strlit("health.check");
    assert("health.check"@[0] != "route.bind"@[0]);
    assert("health.check"@[0] != "route.status"@[0]);
    if base.contains("health.check"@) {
        let k = choose|k: int| 0 <= k < base.len() && base[k] == "health.check"@;
        assert(k == 0 || k == 1);
    }
}

/// The answer is an error of this code and message.
pub open spec fn probe_refused<H, M>(
    answer: ProbeAnswer<H, M>,
    code: Seq<char>,
    message: Seq<char>,
) -> bool {
    answer matches ProbeAnswer::Error(e) && tells(e, code, message)
}

/// A probe that was answered tells the module's report as it came, with what is
/// missing of its required capabilities behind the detail.
pub proof fn a_report_is_told_as_it_came<H, M>(
    response: ModuleControlResponse<H, M>,
    module_id: String,
    capability_detail: Option<String>,
    timeout: &Span,
    corr: u64,
    r: ProbeSettled<H, M>,
)
    requires
        call_ensures(
            settle_health_probe::<H, M>,
            (ProbeEnd::Response(response), module_id, capability_detail, timeout, corr),
            r,
        ),
    ensures
        !r.cancel,
        response matches ModuleControlResponse::HealthCheck(report) ==> (
        r.answer matches ProbeAnswer::Report { module_id: id, report: told } && id@ == module_id@
            && told.status == report.status && told.metrics == report.metrics && {
            &&& report.detail is None && capability_detail is None ==> told.detail is None
            &&& report.detail is Some && capability_detail is None ==> told.detail is Some
                && told.detail->0@ == report.detail->0@
            &&& report.detail is None && capability_detail is Some ==> told.detail is Some
                && told.detail->0@ == capability_detail->0@
            &&& report.detail is Some && capability_detail is Some ==> told.detail is Some
                && told.detail->0@ == report.detail->0@ + "; "@ + capability_detail->0@
        }),
        !(response is HealthCheck) ==> probe_refused(
            r.answer,
            "invalid_control_body"@,
            "health.check RPC returned a non-health response"@,
        ),
{
}

/// A probe that was not answered says why; one that is still out when it ends is
/// called back.
pub proof fn what_the_end_of_a_probe_says<H, M>(
    end: ProbeEnd<H, M>,
    module_id: String,
    capability_detail: Option<String>,
    timeout: &Span,
    corr: u64,
    r: ProbeSettled<H, M>,
)
    requires
        call_ensures(
            settle_health_probe::<H, M>,
            (end, module_id, capability_detail, timeout, corr),
            r,
        ),
    ensures
        end is BeginFailed || end is Response || end is Rejected || end is ModuleGone
            || end is MalformedResponse || end is UnexpectedOp || end is DeadlineElapsed
            ==> !r.cancel,
        end is EncodeFailed || end is BuildFailed || end is SendFailed || end is WaiterCanceled
            || end is TimedOut ==> r.cancel,
        end matches ProbeEnd::EncodeFailed(text) ==> (r.answer matches ProbeAnswer::Fault(fault)
            && faults(fault, corr, "failed to encode health.check request: "@ + text@)),
        end matches ProbeEnd::BuildFailed(text) ==> (
        r.answer matches ProbeAnswer::Fault(RouterError::FrameBuild(said)) && said@ == text@),
        end matches ProbeEnd::SendFailed(text) ==> probe_refused(
            r.answer,
            "target_unavailable"@,
            text@,
        ),
        end matches ProbeEnd::ModuleGone(text) ==> probe_refused(
            r.answer,
            "target_unavailable"@,
            text@,
        ),
        end matches ProbeEnd::Rejected(body) ==> (r.answer matches ProbeAnswer::Error(told)
            && told@ == body@),
        end matches ProbeEnd::MalformedResponse(text) ==> probe_refused(
            r.answer,
            "invalid_control_body"@,
            text@,
        ),
        end matches ProbeEnd::UnexpectedOp { expected, actual } ==> probe_refused(
            r.answer,
            "invalid_control_body"@,
            "expected module-control op '"@ + expected@ + "', got '"@ + actual@ + "'"@,
        ),
        end is DeadlineElapsed ==> probe_refused(
            r.answer,
            "module_timeout"@,
            "module_id '"@ + module_id@ + "' answered health.check after "@ + duration_words(
                timeout@,
            ),
        ),
        end is TimedOut ==> probe_refused(
            r.answer,
            "module_timeout"@,
            "module_id '"@ + module_id@ + "' did not answer health.check within "@
                + duration_words(timeout@),
        ),
        end is WaiterCanceled ==> probe_refused(
            r.answer,
            "target_unavailable"@,
            "health.check waiter was canceled before the module responded"@,
        ),
        end matches ProbeEnd::BeginFailed(failure) ==> (failure.error is ModuleReloading
            ==> probe_refused(r.answer, "module_reloading"@, failure.text@)) && (
        failure.error is NoModuleConnection || failure.error is StaleModuleEndpoint
            ==> probe_refused(r.answer, "target_unavailable"@, failure.text@)),
{
}

/// A frame goes by the name of its kind.
pub proof fn a_frame_goes_by_its_kind(ty: &FrameType, r: &'static str)
    requires
        call_ensures(FrameType::name, (ty,), r),
    ensures
        ty is Hello ==> r@ == "Hello"@,
        ty is HelloAck ==> r@ == "HelloAck"@,
        ty is Ping ==> r@ == "Ping"@,
        ty is Pong ==> r@ == "Pong"@,
        ty is Goodbye ==> r@ == "Goodbye"@,
        ty is Request ==> r@ == "Request"@,
        ty is Response ==> r@ == "Response"@,
        ty is Error ==> r@ == "Error"@,
        ty is Push ==> r@ == "Push"@,
        ty is Cancel ==> r@ == "Cancel"@,
{
}

/// Only a response and an error are a module's answer.
pub proof fn no_other_frame_is_an_answer<H, M>(
    ty: FrameType,
    facts: ModuleAnswerFacts<H, M>,
    r: ModuleAnswerStep<H, M>,
)
    requires
        call_ensures(module_answer_step::<H, M>, (ty, facts), r),
        ty == FrameType::Push || ty == FrameType::Request,
    ensures
        ty == FrameType::Push ==> (r matches ModuleAnswerStep::Refused(e) && tells(
            e,
            "unsupported_control_frame"@,
            "unsupported module channel-0 frame "@ + "Push"@,
        )),
        ty == FrameType::Request ==> (r matches ModuleAnswerStep::Refused(e) && tells(
            e,
            "unsupported_control_frame"@,
            "unsupported module channel-0 frame "@ + "Request"@,
        )),
{
}

} // verus!
