//! Which handler a frame on channel 0 goes to, and which frames go to none.
use crate::control::fault::{FaultView, ForwardingError, RouterError};
use crate::control::manifest::{target_module_id, RouteTarget};
use crate::control::ops::{
    body_error, classify_client_body, classify_module_body, is_known_module_push_op,
    is_known_module_request_op, module_to_subc_op_names, subc_op_names, ControlRequestBodyError,
    CATALOG_UPDATE, ROUTE_STATUS,
};
use crate::control::wire::{
    control_error, error_of, frame_type_name, ErrorBody, ErrorView, FrameHeader, FrameType,
};
use crate::span::{Span, NANOS_PER_MILLI, NANOS_PER_SEC};
use crate::text::text_option;
use vstd::prelude::*;

verus! {

/// What a client can ask, by its operation.
#[derive(Clone, Copy, Debug, PartialEq, Eq, Structural)]
pub enum ClientRequestKind {
    ServerDescribe,
    CatalogList,
    RouteOpen,
    RoutePoll,
    SupervisorList,
    SupervisorSpawnSnapshot,
    SupervisorSpawnSubscribe,
    SupervisorRestart,
    SupervisorReload,
    SupervisorRescan,
    SupervisorReleaseReserved,
    SupervisorSetEnabled,
    SupervisorHealthProbe,
    SupervisorHealth,
    SupervisorRoutes,
    SupervisorProvenance,
    SupervisorStderrTail,
    SupervisorTerminals,
}

/// The operation's name.
pub open spec fn request_op(kind: ClientRequestKind) -> Seq<char> {
    match kind {
        ClientRequestKind::ServerDescribe => "server.describe"@,
        ClientRequestKind::CatalogList => "catalog.list"@,
        ClientRequestKind::RouteOpen => "route.open"@,
        ClientRequestKind::RoutePoll => "route.poll"@,
        ClientRequestKind::SupervisorList => "supervisor.list"@,
        ClientRequestKind::SupervisorSpawnSnapshot => "supervisor.spawn_snapshot"@,
        ClientRequestKind::SupervisorSpawnSubscribe => "supervisor.spawn_subscribe"@,
        ClientRequestKind::SupervisorRestart => "supervisor.restart"@,
        ClientRequestKind::SupervisorReload => "supervisor.reload"@,
        ClientRequestKind::SupervisorRescan => "supervisor.rescan"@,
        ClientRequestKind::SupervisorReleaseReserved => "supervisor.release_reserved"@,
        ClientRequestKind::SupervisorSetEnabled => "supervisor.set_enabled"@,
        ClientRequestKind::SupervisorHealthProbe => "supervisor.health_probe"@,
        ClientRequestKind::SupervisorHealth => "supervisor.health"@,
        ClientRequestKind::SupervisorRoutes => "supervisor.routes"@,
        ClientRequestKind::SupervisorProvenance => "supervisor.provenance"@,
        ClientRequestKind::SupervisorStderrTail => "supervisor.stderr_tail"@,
        ClientRequestKind::SupervisorTerminals => "supervisor.terminals"@,
    }
}

/// The operation's name.
pub fn client_control_request_op(kind: ClientRequestKind) -> (r: &'static str)
    ensures
        r@ == request_op(kind),
{
    match kind {
        ClientRequestKind::ServerDescribe => "server.describe",
        ClientRequestKind::CatalogList => "catalog.list",
        ClientRequestKind::RouteOpen => "route.open",
        ClientRequestKind::RoutePoll => "route.poll",
        ClientRequestKind::SupervisorList => "supervisor.list",
        ClientRequestKind::SupervisorSpawnSnapshot => "supervisor.spawn_snapshot",
        ClientRequestKind::SupervisorSpawnSubscribe => "supervisor.spawn_subscribe",
        ClientRequestKind::SupervisorRestart => "supervisor.restart",
        ClientRequestKind::SupervisorReload => "supervisor.reload",
        ClientRequestKind::SupervisorRescan => "supervisor.rescan",
        ClientRequestKind::SupervisorReleaseReserved => "supervisor.release_reserved",
        ClientRequestKind::SupervisorSetEnabled => "supervisor.set_enabled",
        ClientRequestKind::SupervisorHealthProbe => "supervisor.health_probe",
        ClientRequestKind::SupervisorHealth => "supervisor.health",
        ClientRequestKind::SupervisorRoutes => "supervisor.routes",
        ClientRequestKind::SupervisorProvenance => "supervisor.provenance",
        ClientRequestKind::SupervisorStderrTail => "supervisor.stderr_tail",
        ClientRequestKind::SupervisorTerminals => "supervisor.terminals",
    }
}

/// Every request that a client can make is among the operations that the daemon
/// lists.
pub proof fn every_request_is_listed(kind: ClientRequestKind)
    ensures
        subc_op_names().contains(request_op(kind)),
{
    let names = subc_op_names();
    assert(names[0] == request_op(ClientRequestKind::ServerDescribe));
    assert(names[1] == request_op(ClientRequestKind::CatalogList));
    assert(names[2] == request_op(ClientRequestKind::RouteOpen));
    assert(names[3] == request_op(ClientRequestKind::RoutePoll));
    assert(names[6] == request_op(ClientRequestKind::SupervisorList));
    assert(names[7] == request_op(ClientRequestKind::SupervisorRestart));
    assert(names[8] == request_op(ClientRequestKind::SupervisorReload));
    assert(names[9] == request_op(ClientRequestKind::SupervisorRescan));
    assert(names[10] == request_op(ClientRequestKind::SupervisorReleaseReserved));
    assert(names[11] == request_op(ClientRequestKind::SupervisorSetEnabled));
    assert(names[12] == request_op(ClientRequestKind::SupervisorHealthProbe));
    assert(names[13] == request_op(ClientRequestKind::SupervisorHealth));
    assert(names[14] == request_op(ClientRequestKind::SupervisorStderrTail));
    assert(names[15] == request_op(ClientRequestKind::SupervisorTerminals));
    assert(names[16] == request_op(ClientRequestKind::SupervisorRoutes));
    assert(names[17] == request_op(ClientRequestKind::SupervisorProvenance));
    assert(names[18] == request_op(ClientRequestKind::SupervisorSpawnSnapshot));
    assert(names[19] == request_op(ClientRequestKind::SupervisorSpawnSubscribe));
}

/// Everything that is read of a frame on channel 0 to find its handler.
#[derive(Debug)]
pub struct ControlFrameFacts {
    /// The frame's connection is a module's.
    pub from_module: Result<bool, ForwardingError>,
    /// The operation that the body names, if it names one.
    pub op: Option<String>,
    /// Why the body is no request of a module, if it is none.
    pub module_request_error: Option<String>,
    /// The body as a client's request, or why it is none.
    pub client_request: Result<ClientRequestKind, String>,
}

/// Where a frame on channel 0 goes.
#[derive(Debug)]
pub enum ControlStep {
    Pong,
    Hello,
    Goodbye,
    /// A spawn subscription is to be cancelled.
    Cancel,
    /// A module's catalog update.
    CatalogUpdate,
    Client(ClientRequestKind),
    /// A module's push.
    StatusUpdate,
    /// A module's answer.
    ModuleAnswer,
    Refused(ErrorBody),
    Fault(RouterError),
}

/// A [`ControlStep`] over characters.
#[verifier::ext_equal]
pub enum ControlStepView {
    Pong,
    Hello,
    Goodbye,
    Cancel,
    CatalogUpdate,
    Client(ClientRequestKind),
    StatusUpdate,
    ModuleAnswer,
    Refused(ErrorView),
    Fault(FaultView),
}

impl View for ControlStep {
    type V = ControlStepView;

    open spec fn view(&self) -> ControlStepView {
        match *self {
            ControlStep::Pong => ControlStepView::Pong,
            ControlStep::Hello => ControlStepView::Hello,
            ControlStep::Goodbye => ControlStepView::Goodbye,
            ControlStep::Cancel => ControlStepView::Cancel,
            ControlStep::CatalogUpdate => ControlStepView::CatalogUpdate,
            ControlStep::Client(kind) => ControlStepView::Client(kind),
            ControlStep::StatusUpdate => ControlStepView::StatusUpdate,
            ControlStep::ModuleAnswer => ControlStepView::ModuleAnswer,
            ControlStep::Refused(e) => ControlStepView::Refused(e@),
            ControlStep::Fault(f) => ControlStepView::Fault(f@),
        }
    }
}

/// What is told of a frame that has no handler.
pub open spec fn unsupported(ty: FrameType) -> ControlStepView {
    ControlStepView::Refused(
        error_of(
            "unsupported_control_frame"@,
            "unsupported channel-0 frame "@ + frame_type_name(ty),
        ),
    )
}

/// Whether the body names the one operation that a module may ask.
pub open spec fn names_module_request(op: Option<String>) -> bool {
    op matches Some(op) && module_to_subc_op_names().contains(op@)
}

/// Where a module's request goes.
pub open spec fn module_request_step(facts: ControlFrameFacts) -> ControlStepView {
    if !names_module_request(facts.op) {
        ControlStepView::Refused(
            error_of(
                "unsupported_control_frame"@,
                "module-originated channel-0 REQUEST is not supported"@,
            ),
        )
    } else {
        match facts.module_request_error {
            None => ControlStepView::CatalogUpdate,
            Some(text) => match body_error(text_option(facts.op), module_to_subc_op_names()) {
                ControlRequestBodyError::UnknownOp => ControlStepView::Refused(
                    error_of(
                        "unsupported_control_frame"@,
                        "unsupported module-originated channel-0 REQUEST: "@ + text@,
                    ),
                ),
                ControlRequestBodyError::InvalidBody => ControlStepView::Refused(
                    error_of(
                        "invalid_control_body"@,
                        "malformed module control body: "@ + text@,
                    ),
                ),
            },
        }
    }
}

/// Where a client's request goes.
pub open spec fn client_request_step(facts: ControlFrameFacts) -> ControlStepView {
    if names_module_request(facts.op) {
        ControlStepView::Refused(
            error_of(
                "not_registered"@,
                "catalog.update requires an active module registration owned by this connection"@,
            ),
        )
    } else {
        match facts.client_request {
            Ok(kind) => ControlStepView::Client(kind),
            Err(text) => match body_error(text_option(facts.op), subc_op_names()) {
                ControlRequestBodyError::UnknownOp => ControlStepView::Refused(
                    error_of("unknown_control_op"@, "unknown client control op: "@ + text@),
                ),
                ControlRequestBodyError::InvalidBody => ControlStepView::Refused(
                    error_of(
                        "invalid_control_body"@,
                        "malformed client control body: "@ + text@,
                    ),
                ),
            },
        }
    }
}

/// Where a frame on channel 0 goes. Modules and clients share the channel, and
/// what a frame may be depends on which of them its connection is.
pub open spec fn control_step(ty: FrameType, facts: ControlFrameFacts) -> ControlStepView {
    match ty {
        FrameType::Ping => ControlStepView::Pong,
        FrameType::Hello => ControlStepView::Hello,
        FrameType::Goodbye => ControlStepView::Goodbye,
        FrameType::Cancel => ControlStepView::Cancel,
        FrameType::Request => match facts.from_module {
            Err(err) => ControlStepView::Fault(FaultView::Forwarding(err)),
            Ok(true) => module_request_step(facts),
            Ok(false) => client_request_step(facts),
        },
        FrameType::Push => match facts.from_module {
            Err(err) => ControlStepView::Fault(FaultView::Forwarding(err)),
            Ok(true) => ControlStepView::StatusUpdate,
            Ok(false) => ControlStepView::Refused(
                error_of(
                    "unsupported_control_frame"@,
                    "client-originated channel-0 PUSH is not supported"@,
                ),
            ),
        },
        FrameType::Response | FrameType::Error => match facts.from_module {
            Err(err) => ControlStepView::Fault(FaultView::Forwarding(err)),
            Ok(true) => ControlStepView::ModuleAnswer,
            Ok(false) => unsupported(ty),
        },
        FrameType::HelloAck | FrameType::Pong => unsupported(ty),
    }
}

pub(crate) fn refuse_frame(ty: FrameType) -> (r: ControlStep)
    ensures
        r@ == unsupported(ty),
{
    ControlStep::Refused(
        control_error(
            "unsupported_control_frame",
            String::from_str("unsupported channel-0 frame ").concat(ty.name()),
        ),
    )
}

fn op_str(op: &Option<String>) -> (r: Option<&str>)
    ensures
        r is Some <==> *op is Some,
        r matches Some(s) ==> (*op)->0@ == s@,
{
    match op {
        Some(op) => Some(op.as_str()),
        None => None,
    }
}

fn step_module_request(facts: &ControlFrameFacts) -> (r: ControlStep)
    ensures
        r@ == module_request_step(*facts),
{
    let op: Option<&str> = op_str(&facts.op);
    if !is_known_module_request_op(op) {
        return ControlStep::Refused(
            control_error(
                "unsupported_control_frame",
                String::from_str("module-originated channel-0 REQUEST is not supported"),
            ),
        );
    }
    match &facts.module_request_error {
        None => ControlStep::CatalogUpdate,
        Some(text) => match classify_module_body(op) {
            ControlRequestBodyError::UnknownOp => ControlStep::Refused(
                control_error(
                    "unsupported_control_frame",
                    String::from_str("unsupported module-originated channel-0 REQUEST: ").concat(
                        text.as_str(),
                    ),
                ),
            ),
            ControlRequestBodyError::InvalidBody => ControlStep::Refused(
                control_error(
                    "invalid_control_body",
                    String::from_str("malformed module control body: ").concat(text.as_str()),
                ),
            ),
        },
    }
}

fn step_client_request(facts: &ControlFrameFacts) -> (r: ControlStep)
    ensures
        r@ == client_request_step(*facts),
{
    let op: Option<&str> = op_str(&facts.op);
    if is_known_module_request_op(op) {
        return ControlStep::Refused(
            control_error(
                "not_registered",
                String::from_str(
                    "catalog.update requires an active module registration owned by this connection",
                ),
            ),
        );
    }
    match &facts.client_request {
        Ok(kind) => ControlStep::Client(*kind),
        Err(text) => match classify_client_body(op) {
            ControlRequestBodyError::UnknownOp => ControlStep::Refused(
                control_error(
                    "unknown_control_op",
                    String::from_str("unknown client control op: ").concat(text.as_str()),
                ),
            ),
            ControlRequestBodyError::InvalidBody => ControlStep::Refused(
                control_error(
                    "invalid_control_body",
                    String::from_str("malformed client control body: ").concat(text.as_str()),
                ),
            ),
        },
    }
}

/// Finds the handler of a frame on channel 0.
pub fn dispatch_control_frame(ty: FrameType, facts: ControlFrameFacts) -> (r: ControlStep)
    ensures
        r@ == control_step(ty, facts),
{
    match ty {
        FrameType::Ping => ControlStep::Pong,
        FrameType::Hello => ControlStep::Hello,
        FrameType::Goodbye => ControlStep::Goodbye,
        FrameType::Cancel => ControlStep::Cancel,
        FrameType::Request => {
            if let Ok(from_module) = facts.from_module {
                if from_module {
                    step_module_request(&facts)
                } else {
                    step_client_request(&facts)
                }
            } else {
                match facts.from_module {
                    Err(err) => ControlStep::Fault(RouterError::Forwarding(err)),
                    Ok(_) => refuse_frame(ty),
                }
            }
        },
        FrameType::Push => match facts.from_module {
            Err(err) => ControlStep::Fault(RouterError::Forwarding(err)),
            Ok(from_module) => if from_module {
                ControlStep::StatusUpdate
            } else {
                ControlStep::Refused(
                    control_error(
                        "unsupported_control_frame",
                        String::from_str("client-originated channel-0 PUSH is not supported"),
                    ),
                )
            },
        },
        FrameType::Response | FrameType::Error => match facts.from_module {
            Err(err) => ControlStep::Fault(RouterError::Forwarding(err)),
            Ok(from_module) => if from_module {
                ControlStep::ModuleAnswer
            } else {
                refuse_frame(ty)
            },
        },
        FrameType::HelloAck | FrameType::Pong => refuse_frame(ty),
    }
}

/// The module that a frame asks a route to, where it is a request on channel 0
/// whose body is the opening of a route to `target`.
pub fn route_open_target(header: &FrameHeader, target: Option<&RouteTarget>) -> (r: Option<String>)
    ensures
        text_option(r) == if header.channel == 0 && header.ty == FrameType::Request {
            match target {
                Some(target) => Some(target@.module_id()),
                None => None,
            }
        } else {
            None
        },
{
    if header.channel != 0 || header.ty != FrameType::Request {
        return None;
    }
    match target {
        Some(target) => Some(target_module_id(target).to_owned()),
        None => None,
    }
}

/// The answer to the cancelling of a spawn subscription; silence where there was
/// one.
pub fn cancel_answer(cancelled: bool) -> (r: Option<ErrorBody>)
    ensures
        r is None <==> cancelled,
        r matches Some(e) ==> e@ == error_of(
            "unknown_subscription"@,
            "no supervisor spawn subscription has this correlation id"@,
        ),
{
    if cancelled {
        None
    } else {
        Some(
            control_error(
                "unknown_subscription",
                String::from_str("no supervisor spawn subscription has this correlation id"),
            ),
        )
    }
}

/// A module's push that the daemon understands.
#[derive(Debug)]
pub struct RouteStatus<T> {
    pub route_channel: u16,
    pub route_epoch: u32,
    pub status: T,
}

/// What a module's push leads to.
#[derive(Debug)]
pub enum StatusStep<T> {
    Cache(RouteStatus<T>),
    Refused(ErrorBody),
    Ignore,
}

/// Decides what a module's push leads to. One that the daemon does not know is
/// ignored, so that a newer module can send it; a broken one that it does know is
/// an error.
pub fn status_update_step<T>(push: Result<RouteStatus<T>, String>, op: Option<&str>) -> (r:
    StatusStep<T>)
    ensures
        push matches Ok(status) ==> r == StatusStep::Cache(status),
        push matches Err(text) ==> if (op matches Some(op) && op@ == ROUTE_STATUS@) {
            r matches StatusStep::Refused(e) && e@ == error_of(
                "invalid_control_body"@,
                "malformed module control push body: "@ + text@,
            )
        } else {
            r is Ignore
        },
{
    match push {
        Ok(status) => StatusStep::Cache(status),
        Err(text) => if is_known_module_push_op(op) {
            StatusStep::Refused(
                control_error(
                    "invalid_control_body",
                    String::from_str("malformed module control push body: ").concat(
                        text.as_str(),
                    ),
                ),
            )
        } else {
            StatusStep::Ignore
        },
    }
}

/// Milliseconds of a dispatch that took a second or more.
pub fn slow_dispatch_ms(elapsed: Option<Span>) -> (r: Option<u64>)
    ensures
        r is Some <==> (elapsed matches Some(e) && e@ >= NANOS_PER_SEC),
        r matches Some(ms) ==> ms == (elapsed->0@ / (NANOS_PER_MILLI as nat))
            % 0x1_0000_0000_0000_0000,
{
    match elapsed {
        Some(elapsed) => if elapsed.as_nanos() >= NANOS_PER_SEC {
            Some(elapsed.as_millis())
        } else {
            None
        },
        None => None,
    }
}

/// What a client asks of a route.
#[derive(Clone, Copy, Debug, PartialEq, Eq, Structural)]
pub enum PollKind {
    Status,
    Liveness,
}

/// What the forwarding table holds of a polled route.
#[derive(Debug)]
pub enum RoutePollSnapshot<T> {
    Bound { module_id: String, status: Option<T> },
    Absent,
}

/// The answer to a poll.
#[derive(Debug)]
pub struct RoutePollAnswer<T> {
    pub route_channel: u16,
    pub route_epoch: u32,
    pub status: Option<T>,
    pub live: Option<bool>,
}

/// Answers a poll. A bound route of a module whose process nobody watches is
/// live: the binding itself attests it.
pub fn route_poll_answer<T>(
    route_channel: u16,
    route_epoch: u32,
    kind: PollKind,
    snapshot: RoutePollSnapshot<T>,
    process_live: Option<bool>,
) -> (r: RoutePollAnswer<T>)
    ensures
        r.route_channel == route_channel,
        r.route_epoch == route_epoch,
        r.status == (match (kind, snapshot) {
            (PollKind::Status, RoutePollSnapshot::Bound { status, .. }) => status,
            _ => None,
        }),
        r.live == (match (kind, snapshot) {
            (PollKind::Status, _) => None,
            (PollKind::Liveness, RoutePollSnapshot::Absent) => Some(false),
            (PollKind::Liveness, RoutePollSnapshot::Bound { .. }) => Some(
                process_live != Some(false),
            ),
        }),
{
    match kind {
        PollKind::Status => {
            let status: Option<T> = match snapshot {
                RoutePollSnapshot::Bound { status, .. } => status,
                RoutePollSnapshot::Absent => None,
            };
            RoutePollAnswer { route_channel, route_epoch, status, live: None }
        },
        PollKind::Liveness => {
            let live: bool = match snapshot {
                RoutePollSnapshot::Bound { .. } => match process_live {
                    Some(live) => live,
                    None => true,
                },
                RoutePollSnapshot::Absent => false,
            };
            RoutePollAnswer { route_channel, route_epoch, status: None, live: Some(live) }
        },
    }
}

/// A module that asks anything but a catalog update is told so, and a client that
/// asks for one is told that it is no module.
pub proof fn catalog_updates_come_from_modules_only(facts: ControlFrameFacts)
    ensures
        control_step(FrameType::Request, facts) is CatalogUpdate ==> facts.from_module == Ok::<
            bool,
            ForwardingError,
        >(true) && text_option(facts.op) == Some(CATALOG_UPDATE@),
        control_step(FrameType::Request, facts) is Client ==> facts.from_module == Ok::<
            bool,
            ForwardingError,
        >(false),
{
}

} // verus!
