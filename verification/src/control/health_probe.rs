//! Asking a module how it is, on a client's behalf.
use crate::control::fault::{
    backend, backend_fault, forwarding_code, forwarding_error_code, FaultView, ForwardingFailure,
    RouterError,
};
use crate::control::ops::{grants, module_registration_grants_op, HEALTH_CHECK};
use crate::control::relay_response::{HealthReport, ModuleControlResponse};
use crate::control::wire::{about, control_error, error_of, ErrorBody, ErrorView};
use crate::span::{duration_words, Span};
use crate::text::{text_option, texts};
use vstd::prelude::*;

verus! {

/// Seconds that a module has to answer a probe.
pub const DEFAULT_HEALTH_PROBE_TIMEOUT_SECS: u64 = 5;

/// The detail of a health report with what is missing of the module's required
/// capabilities.
pub open spec fn with_problem(detail: Option<Seq<char>>, problem: Option<Seq<char>>) -> Option<
    Seq<char>,
> {
    match (detail, problem) {
        (Some(detail), Some(problem)) => Some(detail + "; "@ + problem),
        (Some(detail), None) => Some(detail),
        (None, problem) => problem,
    }
}

/// Puts what is missing of a module's required capabilities behind its detail.
pub fn append_capability_problem_detail(
    detail: Option<String>,
    capability_detail: Option<String>,
) -> (r: Option<String>)
    ensures
        text_option(r) == with_problem(text_option(detail), text_option(capability_detail)),
{
    match (detail, capability_detail) {
        (Some(detail), Some(capability_detail)) => Some(
            detail.concat("; ").concat(capability_detail.as_str()),
        ),
        (Some(detail), None) => Some(detail),
        (None, Some(capability_detail)) => Some(capability_detail),
        (None, None) => None,
    }
}

/// Whether a probe is sent.
#[derive(Debug)]
pub enum ProbeGate {
    Fault(RouterError),
    Refused(ErrorBody),
    Send,
}

/// A [`ProbeGate`] over characters.
#[verifier::ext_equal]
pub enum ProbeGateView {
    Fault(FaultView),
    Refused(ErrorView),
    Send,
}

impl View for ProbeGate {
    type V = ProbeGateView;

    open spec fn view(&self) -> ProbeGateView {
        match *self {
            ProbeGate::Fault(f) => ProbeGateView::Fault(f@),
            ProbeGate::Refused(e) => ProbeGateView::Refused(e@),
            ProbeGate::Send => ProbeGateView::Send,
        }
    }
}

/// Whether a probe is sent: only to a registered module that serves health
/// checks. `control_ops` is what the registry holds of it.
pub open spec fn probe_gate(
    control_ops: Result<Option<Vec<String>>, String>,
    module_id: Seq<char>,
    corr: u64,
) -> ProbeGateView {
    match control_ops {
        Err(text) => ProbeGateView::Fault(backend_fault(corr, text@)),
        Ok(None) => ProbeGateView::Refused(
            error_of("unknown_module"@, "module_id '"@ + module_id + "' is not registered"@),
        ),
        Ok(Some(ops)) => if grants(texts(ops@), HEALTH_CHECK@) {
            ProbeGateView::Send
        } else {
            ProbeGateView::Refused(
                error_of(
                    "health_not_advertised"@,
                    "module_id '"@ + module_id + "' did not advertise health.check"@,
                ),
            )
        },
    }
}

/// Decides whether a probe is sent.
pub fn health_probe_gate(
    control_ops: Result<Option<Vec<String>>, String>,
    module_id: &str,
    corr: u64,
) -> (r: ProbeGate)
    ensures
        r@ == probe_gate(control_ops, module_id@, corr),
{
    match control_ops {
        Err(text) => ProbeGate::Fault(backend(corr, text)),
        Ok(None) => ProbeGate::Refused(
            control_error(
                "unknown_module",
                about("module_id '", module_id, "' is not registered"),
            ),
        ),
        Ok(Some(ops)) => if module_registration_grants_op(&ops, HEALTH_CHECK) {
            ProbeGate::Send
        } else {
            ProbeGate::Refused(
                control_error(
                    "health_not_advertised",
                    about("module_id '", module_id, "' did not advertise health.check"),
                ),
            )
        },
    }
}

/// How a probe ends.
#[derive(Debug)]
pub enum ProbeEnd<H, M> {
    /// The request could not be entered in the forwarding table.
    BeginFailed(ForwardingFailure),
    EncodeFailed(String),
    /// The frame of the request could not be built.
    BuildFailed(String),
    SendFailed(String),
    Response(ModuleControlResponse<H, M>),
    Rejected(ErrorBody),
    ModuleGone(String),
    MalformedResponse(String),
    UnexpectedOp { expected: String, actual: String },
    /// The module answered after the deadline.
    DeadlineElapsed,
    WaiterCanceled,
    TimedOut,
}

/// What a client is told of a module's health.
#[derive(Debug)]
pub enum ProbeAnswer<H, M> {
    Report { module_id: String, report: HealthReport<H, M> },
    Error(ErrorBody),
    Fault(RouterError),
}

/// A [`ProbeAnswer`] over characters.
#[verifier::ext_equal]
pub enum ProbeAnswerView<H, M> {
    Report {
        module_id: Seq<char>,
        status: H,
        detail: Option<Seq<char>>,
        metrics: Option<M>,
    },
    Error(ErrorView),
    Fault(FaultView),
}

impl<H, M> View for ProbeAnswer<H, M> {
    type V = ProbeAnswerView<H, M>;

    open spec fn view(&self) -> ProbeAnswerView<H, M> {
        match *self {
            ProbeAnswer::Report { module_id, report } => ProbeAnswerView::Report {
                module_id: module_id@,
                status: report.status,
                detail: text_option(report.detail),
                metrics: report.metrics,
            },
            ProbeAnswer::Error(e) => ProbeAnswerView::Error(e@),
            ProbeAnswer::Fault(f) => ProbeAnswerView::Fault(f@),
        }
    }
}

/// What a client is told at the end of a probe. The metrics go out whole.
pub open spec fn probe_answer<H, M>(
    end: ProbeEnd<H, M>,
    module_id: Seq<char>,
    problem: Option<Seq<char>>,
    timeout: nat,
    corr: u64,
) -> ProbeAnswerView<H, M> {
    match end {
        ProbeEnd::BeginFailed(f) => ProbeAnswerView::Error(
            error_of(forwarding_code(f.error), f.text@),
        ),
        ProbeEnd::EncodeFailed(text) => ProbeAnswerView::Fault(
            backend_fault(corr, "failed to encode health.check request: "@ + text@),
        ),
        ProbeEnd::BuildFailed(text) => ProbeAnswerView::Fault(FaultView::FrameBuild(text@)),
        ProbeEnd::SendFailed(text) => ProbeAnswerView::Error(
            error_of("target_unavailable"@, text@),
        ),
        ProbeEnd::Response(response) => match response {
            ModuleControlResponse::HealthCheck(report) => ProbeAnswerView::Report {
                module_id,
                status: report.status,
                detail: with_problem(text_option(report.detail), problem),
                metrics: report.metrics,
            },
            _ => ProbeAnswerView::Error(
                error_of(
                    "invalid_control_body"@,
                    "health.check RPC returned a non-health response"@,
                ),
            ),
        },
        ProbeEnd::Rejected(body) => ProbeAnswerView::Error(body@),
        ProbeEnd::ModuleGone(text) => ProbeAnswerView::Error(
            error_of("target_unavailable"@, text@),
        ),
        ProbeEnd::MalformedResponse(text) => ProbeAnswerView::Error(
            error_of("invalid_control_body"@, text@),
        ),
        ProbeEnd::UnexpectedOp { expected, actual } => ProbeAnswerView::Error(
            error_of(
                "invalid_control_body"@,
                "expected module-control op '"@ + expected@ + "', got '"@ + actual@ + "'"@,
            ),
        ),
        ProbeEnd::DeadlineElapsed => ProbeAnswerView::Error(
            error_of(
                "module_timeout"@,
                "module_id '"@ + module_id + "' answered health.check after "@ + duration_words(
                    timeout,
                ),
            ),
        ),
        ProbeEnd::WaiterCanceled => ProbeAnswerView::Error(
            error_of(
                "target_unavailable"@,
                "health.check waiter was canceled before the module responded"@,
            ),
        ),
        ProbeEnd::TimedOut => ProbeAnswerView::Error(
            error_of(
                "module_timeout"@,
                "module_id '"@ + module_id + "' did not answer health.check within "@
                    + duration_words(timeout),
            ),
        ),
    }
}

/// Whether the forwarding table still holds the request at the end, so that it
/// has to be cancelled there: nothing took it out that was sent, or was to be
/// sent, and never answered.
pub open spec fn probe_outstanding<H, M>(end: ProbeEnd<H, M>) -> bool {
    ||| end is EncodeFailed
    ||| end is BuildFailed
    ||| end is SendFailed
    ||| end is WaiterCanceled
    ||| end is TimedOut
}

/// The end of a probe.
#[derive(Debug)]
pub struct ProbeSettled<H, M> {
    pub answer: ProbeAnswer<H, M>,
    /// The request is cancelled in the forwarding table.
    pub cancel: bool,
}

/// Ends a probe.
pub fn settle_health_probe<H, M>(
    end: ProbeEnd<H, M>,
    module_id: String,
    capability_detail: Option<String>,
    timeout: &Span,
    corr: u64,
) -> (r: ProbeSettled<H, M>)
    ensures
        r.answer@ == probe_answer(
            end,
            module_id@,
            text_option(capability_detail),
            timeout@,
            corr,
        ),
        r.cancel == probe_outstanding(end),
{
    let cancel: bool = match &end {
        ProbeEnd::EncodeFailed(_) => true,
        ProbeEnd::BuildFailed(_) => true,
        ProbeEnd::SendFailed(_) => true,
        ProbeEnd::WaiterCanceled => true,
        ProbeEnd::TimedOut => true,
        _ => false,
    };
    let answer: ProbeAnswer<H, M> = match end {
        ProbeEnd::BeginFailed(failure) => ProbeAnswer::Error(
            control_error(forwarding_error_code(&failure.error), failure.text),
        ),
        ProbeEnd::EncodeFailed(text) => ProbeAnswer::Fault(
            backend(
                corr,
                String::from_str("failed to encode health.check request: ").concat(text.as_str()),
            ),
        ),
        ProbeEnd::BuildFailed(text) => ProbeAnswer::Fault(RouterError::FrameBuild(text)),
        ProbeEnd::SendFailed(text) => ProbeAnswer::Error(
            control_error("target_unavailable", text),
        ),
        ProbeEnd::Response(response) => match response {
            ModuleControlResponse::HealthCheck(report) => ProbeAnswer::Report {
                module_id,
                report: HealthReport {
                    status: report.status,
                    detail: append_capability_problem_detail(report.detail, capability_detail),
                    metrics: report.metrics,
                },
            },
            _ => ProbeAnswer::Error(
                control_error(
                    "invalid_control_body",
                    String::from_str("health.check RPC returned a non-health response"),
                ),
            ),
        },
        ProbeEnd::Rejected(body) => ProbeAnswer::Error(body),
        ProbeEnd::ModuleGone(text) => ProbeAnswer::Error(
            control_error("target_unavailable", text),
        ),
        ProbeEnd::MalformedResponse(text) => ProbeAnswer::Error(
            control_error("invalid_control_body", text),
        ),
        ProbeEnd::UnexpectedOp { expected, actual } => ProbeAnswer::Error(
            control_error(
                "invalid_control_body",
                String::from_str("expected module-control op '").concat(expected.as_str()).concat(
                    "', got '",
                ).concat(actual.as_str()).concat("'"),
            ),
        ),
        ProbeEnd::DeadlineElapsed => ProbeAnswer::Error(
            control_error(
                "module_timeout",
                about(
                    "module_id '",
                    module_id.as_str(),
                    "' answered health.check after ",
                ).concat(timeout.to_text().as_str()),
            ),
        ),
        ProbeEnd::WaiterCanceled => ProbeAnswer::Error(
            control_error(
                "target_unavailable",
                String::from_str("health.check waiter was canceled before the module responded"),
            ),
        ),
        ProbeEnd::TimedOut => ProbeAnswer::Error(
            control_error(
                "module_timeout",
                about(
                    "module_id '",
                    module_id.as_str(),
                    "' did not answer health.check within ",
                ).concat(timeout.to_text().as_str()),
            ),
        ),
    };
    ProbeSettled { answer, cancel }
}

} // verus!
