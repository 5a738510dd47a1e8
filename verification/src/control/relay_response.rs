//! A module's answer on channel 0: to a relayed bind, or to a control request of
//! the daemon.
use crate::control::fault::{
    closes_a_client_only, refuse_to_end_module_connection_for_a_client, FaultView,
    ForwardingError, RouterError,
};
use crate::control::ops::ROUTE_BIND;
use crate::control::wire::{
    control_error, error_of, frame_type_name, ErrorBody, ErrorView, FrameType,
};
use crate::span::{Span, NANOS_PER_MILLI};
use crate::text::same;
use vstd::prelude::*;

verus! {

/// What a module says of its health. `H` is its verdict and `M` its metrics,
/// which the daemon carries on without reading them.
#[derive(Debug)]
pub struct HealthReport<H, M> {
    pub status: H,
    pub detail: Option<String>,
    pub metrics: Option<M>,
}

/// A module's answer, decoded.
#[derive(Debug)]
pub enum ModuleControlResponse<H, M> {
    RouteBindAck,
    HealthCheck(HealthReport<H, M>),
    /// An answer to any other request.
    Other,
}

/// A decoded answer and its rendering for a message.
#[derive(Debug)]
pub struct DecodedResponse<H, M> {
    pub response: ModuleControlResponse<H, M>,
    pub rendered: String,
}

/// How a relayed bind is answered.
#[derive(Debug)]
pub enum RouteBindRelayOutcome {
    Accepted,
    Rejected(ErrorBody),
    ModuleGone(String),
}

/// A [`RouteBindRelayOutcome`] over characters.
#[verifier::ext_equal]
pub enum BindOutcomeView {
    Accepted,
    Rejected(ErrorView),
    ModuleGone(Seq<char>),
}

impl View for RouteBindRelayOutcome {
    type V = BindOutcomeView;

    open spec fn view(&self) -> BindOutcomeView {
        match *self {
            RouteBindRelayOutcome::Accepted => BindOutcomeView::Accepted,
            RouteBindRelayOutcome::Rejected(body) => BindOutcomeView::Rejected(body@),
            RouteBindRelayOutcome::ModuleGone(text) => BindOutcomeView::ModuleGone(text@),
        }
    }
}

/// How a control request of the daemon is answered.
#[derive(Debug)]
pub enum ModuleControlRpcOutcome<H, M> {
    Response(ModuleControlResponse<H, M>),
    Rejected(ErrorBody),
    MalformedResponse(String),
}

/// A [`ModuleControlRpcOutcome`] over characters.
#[verifier::ext_equal]
pub enum RpcOutcomeView<H, M> {
    Response(ModuleControlResponse<H, M>),
    Rejected(ErrorView),
    MalformedResponse(Seq<char>),
}

impl<H, M> View for ModuleControlRpcOutcome<H, M> {
    type V = RpcOutcomeView<H, M>;

    open spec fn view(&self) -> RpcOutcomeView<H, M> {
        match *self {
            ModuleControlRpcOutcome::Response(r) => RpcOutcomeView::Response(r),
            ModuleControlRpcOutcome::Rejected(body) => RpcOutcomeView::Rejected(body@),
            ModuleControlRpcOutcome::MalformedResponse(text) => RpcOutcomeView::MalformedResponse(
                text@,
            ),
        }
    }
}

/// Everything that is read of a module's answer beside its frame type.
#[derive(Debug)]
pub struct ModuleAnswerFacts<H, M> {
    /// The operation that the body names, or why it names none.
    pub op: Result<String, String>,
    /// The body as an answer, or why it is none.
    pub response: Result<DecodedResponse<H, M>, String>,
    /// The body as an error, or why it is none.
    pub error: Result<ErrorBody, String>,
    /// The operation of the daemon's request that waits for this correlation id.
    pub pending_op: Result<Option<String>, ForwardingError>,
}

/// What a module's answer settles.
#[derive(Debug)]
#[allow(inconsistent_fields)]
pub enum ModuleAnswerStep<H, M> {
    /// A relayed bind. A body that cannot be used is also answered with an error.
    Bind { outcome: RouteBindRelayOutcome, complaint: Option<ErrorBody> },
    /// A control request of the daemon, with the operation where the body names
    /// it.
    Rpc { op: Option<String>, outcome: ModuleControlRpcOutcome<H, M> },
    /// Nothing; the module is told that its frame is not served.
    Refused(ErrorBody),
    Fault(RouterError),
}

/// A [`ModuleAnswerStep`] over characters.
#[verifier::ext_equal]
#[allow(inconsistent_fields)]
pub enum AnswerStepView<H, M> {
    Bind { outcome: BindOutcomeView, complaint: Option<ErrorView> },
    Rpc { op: Option<Seq<char>>, outcome: RpcOutcomeView<H, M> },
    Refused(ErrorView),
    Fault(FaultView),
}

impl<H, M> View for ModuleAnswerStep<H, M> {
    type V = AnswerStepView<H, M>;

    open spec fn view(&self) -> AnswerStepView<H, M> {
        match *self {
            ModuleAnswerStep::Bind { outcome, complaint } => AnswerStepView::Bind {
                outcome: outcome@,
                complaint: match complaint {
                    Some(e) => Some(e@),
                    None => None,
                },
            },
            ModuleAnswerStep::Rpc { op, outcome } => AnswerStepView::Rpc {
                op: match op {
                    Some(op) => Some(op@),
                    None => None,
                },
                outcome: outcome@,
            },
            ModuleAnswerStep::Refused(e) => AnswerStepView::Refused(e@),
            ModuleAnswerStep::Fault(f) => AnswerStepView::Fault(f@),
        }
    }
}

/// A bind whose answer cannot be used: the client is told that the module is
/// gone, and the module what was wrong.
pub open spec fn unusable_bind<H, M>(message: Seq<char>) -> AnswerStepView<H, M> {
    AnswerStepView::Bind {
        outcome: BindOutcomeView::ModuleGone(message),
        complaint: Some(error_of("invalid_control_body"@, message)),
    }
}

fn give_up_bind<H, M>(message: String) -> (r: ModuleAnswerStep<H, M>)
    ensures
        r@ == unusable_bind::<H, M>(message@),
{
    let complaint = control_error("invalid_control_body", message.clone());
    ModuleAnswerStep::Bind {
        outcome: RouteBindRelayOutcome::ModuleGone(message),
        complaint: Some(complaint),
    }
}

/// What a RESPONSE settles. A body that names `route.bind` answers a bind, one
/// that names another operation a request of the daemon. A body that names none
/// answers the request that waits for its correlation id, else a bind.
pub open spec fn response_step<H, M>(facts: ModuleAnswerFacts<H, M>) -> AnswerStepView<H, M> {
    match facts.op {
        Ok(op) => if op@ == ROUTE_BIND@ {
            match facts.response {
                Ok(decoded) => if decoded.response is RouteBindAck {
                    AnswerStepView::Bind { outcome: BindOutcomeView::Accepted, complaint: None }
                } else {
                    unusable_bind(
                        "route.bind response carried unexpected body: "@ + decoded.rendered@,
                    )
                },
                Err(text) => unusable_bind("malformed route.bind response body: "@ + text@),
            }
        } else {
            AnswerStepView::Rpc {
                op: Some(op@),
                outcome: match facts.response {
                    Ok(decoded) => RpcOutcomeView::Response(decoded.response),
                    Err(text) => RpcOutcomeView::MalformedResponse(
                        "malformed "@ + op@ + " response body: "@ + text@,
                    ),
                },
            }
        },
        Err(text) => match facts.pending_op {
            Err(err) => AnswerStepView::Fault(FaultView::Forwarding(err)),
            Ok(Some(expected)) => AnswerStepView::Rpc {
                op: None,
                outcome: RpcOutcomeView::MalformedResponse(
                    "malformed "@ + expected@ + " response body: "@ + text@,
                ),
            },
            Ok(None) => unusable_bind("malformed route.bind response body: "@ + text@),
        },
    }
}

/// What an ERROR settles: the request of the daemon that waits for its
/// correlation id, else a bind.
pub open spec fn error_step<H, M>(facts: ModuleAnswerFacts<H, M>) -> AnswerStepView<H, M> {
    match facts.pending_op {
        Err(err) => AnswerStepView::Fault(FaultView::Forwarding(err)),
        Ok(Some(_)) => AnswerStepView::Rpc {
            op: None,
            outcome: match facts.error {
                Ok(body) => RpcOutcomeView::Rejected(body@),
                Err(text) => RpcOutcomeView::MalformedResponse(
                    "malformed module-control ERROR body: "@ + text@,
                ),
            },
        },
        Ok(None) => match facts.error {
            Ok(body) => AnswerStepView::Bind {
                outcome: BindOutcomeView::Rejected(body@),
                complaint: None,
            },
            Err(text) => unusable_bind("malformed route.bind ERROR body: "@ + text@),
        },
    }
}

/// What a module's answer settles.
pub open spec fn answer_step<H, M>(ty: FrameType, facts: ModuleAnswerFacts<H, M>) -> AnswerStepView<
    H,
    M,
> {
    match ty {
        FrameType::Response => response_step(facts),
        FrameType::Error => error_step(facts),
        _ => AnswerStepView::Refused(
            error_of(
                "unsupported_control_frame"@,
                "unsupported module channel-0 frame "@ + frame_type_name(ty),
            ),
        ),
    }
}

fn settle_response<H, M>(facts: ModuleAnswerFacts<H, M>) -> (r: ModuleAnswerStep<H, M>)
    ensures
        r@ == response_step(facts),
{
    match facts.op {
        Ok(op) => {
            if same(op.as_str(), ROUTE_BIND) {
                match facts.response {
                    Ok(decoded) => match decoded.response {
                        ModuleControlResponse::RouteBindAck => ModuleAnswerStep::Bind {
                            outcome: RouteBindRelayOutcome::Accepted,
                            complaint: None,
                        },
                        _ => give_up_bind(
                            String::from_str("route.bind response carried unexpected body: ").concat(
                                decoded.rendered.as_str(),
                            ),
                        ),
                    },
                    Err(text) => give_up_bind(
                        String::from_str("malformed route.bind response body: ").concat(
                            text.as_str(),
                        ),
                    ),
                }
            } else {
                let outcome = match facts.response {
                    Ok(decoded) => ModuleControlRpcOutcome::Response(decoded.response),
                    Err(text) => ModuleControlRpcOutcome::MalformedResponse(
                        String::from_str("malformed ").concat(op.as_str()).concat(
                            " response body: ",
                        ).concat(text.as_str()),
                    ),
                };
                ModuleAnswerStep::Rpc { op: Some(op), outcome }
            }
        },
        Err(text) => match facts.pending_op {
            Err(err) => ModuleAnswerStep::Fault(RouterError::Forwarding(err)),
            Ok(Some(expected)) => ModuleAnswerStep::Rpc {
                op: None,
                outcome: ModuleControlRpcOutcome::MalformedResponse(
                    String::from_str("malformed ").concat(expected.as_str()).concat(
                        " response body: ",
                    ).concat(text.as_str()),
                ),
            },
            Ok(None) => give_up_bind(
                String::from_str("malformed route.bind response body: ").concat(text.as_str()),
            ),
        },
    }
}

fn settle_error<H, M>(facts: ModuleAnswerFacts<H, M>) -> (r: ModuleAnswerStep<H, M>)
    ensures
        r@ == error_step(facts),
{
    match facts.pending_op {
        Err(err) => ModuleAnswerStep::Fault(RouterError::Forwarding(err)),
        Ok(Some(_)) => ModuleAnswerStep::Rpc {
            op: None,
            outcome: match facts.error {
                Ok(body) => ModuleControlRpcOutcome::Rejected(body),
                Err(text) => ModuleControlRpcOutcome::MalformedResponse(
                    String::from_str("malformed module-control ERROR body: ").concat(
                        text.as_str(),
                    ),
                ),
            },
        },
        Ok(None) => match facts.error {
            Ok(body) => ModuleAnswerStep::Bind {
                outcome: RouteBindRelayOutcome::Rejected(body),
                complaint: None,
            },
            Err(text) => give_up_bind(
                String::from_str("malformed route.bind ERROR body: ").concat(text.as_str()),
            ),
        },
    }
}

/// Decides what a module's answer settles.
pub fn module_answer_step<H, M>(ty: FrameType, facts: ModuleAnswerFacts<H, M>) -> (r:
    ModuleAnswerStep<H, M>)
    ensures
        r@ == answer_step(ty, facts),
{
    match ty {
        FrameType::Response => settle_response(facts),
        FrameType::Error => settle_error(facts),
        _ => ModuleAnswerStep::Refused(
            control_error(
                "unsupported_control_frame",
                String::from_str("unsupported module channel-0 frame ").concat(ty.name()),
            ),
        ),
    }
}

/// What the forwarding table says of a settled bind.
#[derive(Debug)]
pub struct BindCompletion {
    /// A client was waiting for it.
    pub settled: bool,
    /// The module holds a binding that no route will ever use.
    pub abandoned: bool,
}

/// What is left to do after a bind was handed to the forwarding table.
#[derive(Debug)]
pub struct BindSettled {
    pub answer: Option<ErrorBody>,
    /// The module is told to drop the binding.
    pub goodbye: bool,
}

/// Ends the handling of a module's answer to a bind. The module connection ends
/// only for a failure of its own.
pub fn bind_settled(
    module_connection_id: u64,
    completion: Result<BindCompletion, ForwardingError>,
    complaint: Option<ErrorBody>,
) -> (r: Result<BindSettled, RouterError>)
    ensures
        completion matches Ok(c) ==> (r matches Ok(s) && s.answer == complaint && s.goodbye
            == c.abandoned),
        completion matches Err(err) ==> {
            &&& closes_a_client_only(module_connection_id, err) ==> (r matches Ok(s) && s.answer
                == complaint && !s.goodbye)
            &&& !closes_a_client_only(module_connection_id, err) ==> (r matches Err(f) && f
                == RouterError::Forwarding(err))
        },
{
    match completion {
        Ok(completion) => Ok(BindSettled { answer: complaint, goodbye: completion.abandoned }),
        Err(err) => match refuse_to_end_module_connection_for_a_client(module_connection_id, err) {
            Ok(()) => Ok(BindSettled { answer: complaint, goodbye: false }),
            Err(fault) => Err(fault),
        },
    }
}

/// What the forwarding table says of an answered control request.
#[derive(Debug)]
pub enum ModuleControlRpcCompletion {
    /// Nobody waits for it.
    Unknown,
    Settled,
    /// It answers a health check whose deadline has passed.
    LateHealthAnswer { module_id: String, latency: Span },
}

/// A late answer, which still proves that the module is alive.
#[derive(Debug)]
pub struct LateHealthAnswer {
    pub module_id: String,
    pub latency_ms: u64,
}

/// What follows an answered control request.
#[derive(Debug)]
pub struct ObservedCompletion {
    /// Somebody had asked.
    pub known: bool,
    /// The supervisor records it.
    pub late: Option<LateHealthAnswer>,
}

/// Whole milliseconds, as far as a counter reaches.
pub open spec fn latency_ms(nanos: nat) -> nat {
    let ms = nanos / (NANOS_PER_MILLI as nat);
    if ms <= u64::MAX {
        ms
    } else {
        u64::MAX as nat
    }
}

/// Decides what follows an answered control request.
pub fn observe_module_control_completion(completion: ModuleControlRpcCompletion) -> (r:
    ObservedCompletion)
    ensures
        r.known == !(completion is Unknown),
        r.late is Some <==> completion is LateHealthAnswer,
        completion matches ModuleControlRpcCompletion::LateHealthAnswer { module_id, latency }
            ==> (r.late matches Some(late) && late.module_id == module_id && late.latency_ms
            == latency_ms(latency@)),
{
    match completion {
        ModuleControlRpcCompletion::Unknown => ObservedCompletion { known: false, late: None },
        ModuleControlRpcCompletion::Settled => ObservedCompletion { known: true, late: None },
        ModuleControlRpcCompletion::LateHealthAnswer { module_id, latency } => {
            let ms: u128 = latency.as_nanos() / NANOS_PER_MILLI;
            let latency_ms: u64 = if ms <= 0xffff_ffff_ffff_ffffu128 {
                ms as u64
            } else {
                u64::MAX
            };
            ObservedCompletion {
                known: true,
                late: Some(LateHealthAnswer { module_id, latency_ms }),
            }
        },
    }
}

/// Every answer settles either a bind or a request of the daemon, never both, and
/// an answer to a request that waits for it is not taken for one to a bind.
pub proof fn a_pending_request_is_not_mistaken_for_a_bind<H, M>(
    ty: FrameType,
    facts: ModuleAnswerFacts<H, M>,
)
    requires
        ty is Response || ty is Error,
        facts.pending_op matches Ok(Some(_)),
        ty is Error || facts.op is Err,
    ensures
        answer_step(ty, facts) is Rpc,
{
}

/// A bind is accepted by nothing but the module's acknowledgement of it.
pub proof fn only_an_acknowledgement_accepts_a_bind<H, M>(
    ty: FrameType,
    facts: ModuleAnswerFacts<H, M>,
)
    requires
        answer_step(ty, facts) matches AnswerStepView::Bind { outcome, .. } && outcome is Accepted,
    ensures
        ty is Response,
        facts.op matches Ok(op) && op@ == ROUTE_BIND@,
        facts.response matches Ok(decoded) && decoded.response is RouteBindAck,
{
}

} // verus!
