//! Opening a route: every gate a `route.open` passes, in order, and how the bind
//! that is relayed for it settles.
//!
//! The registry, the supervisor and the forwarding table are read by the caller;
//! what they said stands in [`RouteOpenFacts`].
use crate::control::breaker::{
    admission, after_admission, after_inconclusive, after_timeout, opening, AdmissionView,
    BreakerOpened, RouteBindAdmission, RouteBindBreakers,
};
use crate::control::concurrency::{
    admitted, in_flight, release_undoes_admission, released, RouteBindConcurrency,
};
use crate::control::fault::{
    backend, backend_fault, forwarding_code, forwarding_error_code, retryable_codes, FaultView,
    ForwardingError, ForwardingFailure, RouterError,
};
use crate::control::manifest::{
    claims, denials, denied_capability, first_denied, role_views, target_has_required_role,
    target_module_id, CapabilityDeclarations, ProviderRole, RouteTarget,
};
use crate::control::ops::{grants, module_registration_grants_op, ROUTE_BIND};
use crate::control::wire::{
    about, control_error, control_error_with_field, error_of, goodbye, goodbye_header, DetailView,
    ErrorBody, ErrorView, FrameHeader,
};
use crate::daemon_config::ModuleProtocol;
use crate::span::{duration_words, Span, SPAN_LIMIT};
use crate::text::{
    bool_text, bool_word, contains_text, decimal, decimal_text, same, texts,
};
use vstd::prelude::*;

verus! {

/// How a module proves that the daemon spawned it: its id and the nonce it was
/// given.
#[derive(Debug)]
pub struct ConsumerIdentity {
    pub module_id: String,
    pub launch_nonce: String,
}

/// Who is calling, as far as it was proved.
#[derive(Debug)]
pub enum Principal {
    /// Nothing was proved.
    Direct,
    /// The supervised module of this id.
    Reserved { module_id: String },
    /// Stamped by a peer that proves nothing.
    Unverified,
}

/// A [`Principal`] over characters.
#[verifier::ext_equal]
pub enum PrincipalView {
    Direct,
    Reserved { module_id: Seq<char> },
    Unverified,
}

impl View for Principal {
    type V = PrincipalView;

    open spec fn view(&self) -> PrincipalView {
        match *self {
            Principal::Direct => PrincipalView::Direct,
            Principal::Reserved { module_id } => PrincipalView::Reserved { module_id: module_id@ },
            Principal::Unverified => PrincipalView::Unverified,
        }
    }
}

/// The principal's name in the log and in the accept counter.
pub open spec fn principal_name(p: PrincipalView) -> Seq<char> {
    match p {
        PrincipalView::Direct => "direct"@,
        PrincipalView::Reserved { module_id } => "reserved:"@ + module_id,
        PrincipalView::Unverified => "Unverified"@,
    }
}

impl Principal {
    /// The principal's name in the log and in the accept counter.
    pub fn label(&self) -> (r: String)
        ensures
            r@ == principal_name(self@),
    {
        match self {
            Principal::Direct => String::from_str("direct"),
            Principal::Reserved { module_id } => String::from_str("reserved:").concat(
                module_id.as_str(),
            ),
            Principal::Unverified => String::from_str("Unverified"),
        }
    }
}

/// Where and for whom a route is bound. `S` is what the daemon carries on without
/// reading it.
#[derive(Debug)]
pub struct BindIdentity<S> {
    pub project_root: String,
    pub session: S,
}

/// A client's `route.open`. `F` is the shape of the admission facts, which the
/// daemon never looks into.
#[derive(Debug)]
pub struct RouteOpenRequest<S, F> {
    pub target: RouteTarget,
    pub identity: BindIdentity<S>,
    pub consumer_identity: Option<ConsumerIdentity>,
    pub consumer_capabilities: Option<Vec<String>>,
    pub admission_facts: Option<F>,
}

/// What the registry holds of the target.
#[derive(Debug)]
pub struct TargetRegistration {
    pub ready: bool,
    pub provides: Vec<ProviderRole>,
    pub capabilities: Option<CapabilityDeclarations>,
    pub active: bool,
}

/// What the supervisor says of a module that is not registered.
#[derive(Debug)]
pub struct SupervisedStatus {
    pub state: String,
    pub enabled: bool,
    pub live: bool,
    pub protocol: ModuleProtocol,
    pub warming: bool,
}

/// What the registry holds of the module that opens the route.
#[derive(Debug)]
pub struct OpenerRegistration {
    pub capabilities: Option<CapabilityDeclarations>,
}

/// Everything that the gates of a `route.open` read. A reading that failed
/// matters only to a request that gets as far as its gate.
#[derive(Debug)]
pub struct RouteOpenFacts {
    pub registration: Result<Option<TargetRegistration>, String>,
    pub supervised: Result<Option<SupervisedStatus>, String>,
    /// How long ago a rescan removed the target, in milliseconds.
    pub removed_ago_ms: Option<u64>,
    pub draining: Result<bool, ForwardingError>,
    /// Nothing where no supervisor watches the target's process.
    pub process_live: Option<bool>,
    pub live_connection: Result<bool, ForwardingError>,
    /// The operations that the target grants, read after its registration.
    pub control_ops: Result<Option<Vec<String>>, String>,
    /// The consumer identity matches a nonce of a spawned module.
    pub consumer_authorized: bool,
    pub opener: Result<Option<OpenerRegistration>, String>,
    /// The project root with its existing part resolved, or why it is none.
    pub project_root: Result<String, String>,
}

/// Who may carry admission facts, and to whom.
#[derive(Debug)]
pub struct AdmissionFactsPolicy {
    pub carrier_module_id: Option<String>,
    pub targets: Option<Vec<String>>,
}

/// Under which key a refusal is counted.
#[derive(Clone, Copy, Debug, PartialEq, Eq, Structural)]
pub enum RefusalCounter {
    /// Not at all: a request that never was a valid open is not refused one.
    Uncounted,
    /// Under the code of its answer.
    Code,
    /// As a target that declared itself not ready.
    DeclaredNotReady,
    /// As a target whose breaker is open.
    BreakerOpen,
    /// As a bind that the module rejected, whatever code the module gave.
    ModuleRejected,
}

/// A refused `route.open`.
#[derive(Debug)]
pub struct Refusal {
    pub body: ErrorBody,
    pub counter: RefusalCounter,
}

/// A [`Refusal`] over characters.
#[verifier::ext_equal]
pub struct RefusalView {
    pub body: ErrorView,
    pub counter: RefusalCounter,
}

impl View for Refusal {
    type V = RefusalView;

    open spec fn view(&self) -> RefusalView {
        RefusalView { body: self.body@, counter: self.counter }
    }
}

/// A refusal that is counted under its own code.
pub open spec fn refused(code: Seq<char>, message: Seq<char>) -> RefusalView {
    RefusalView { body: error_of(code, message), counter: RefusalCounter::Code }
}

fn refuse(code: &str, message: String) -> (r: Refusal)
    ensures
        r@ == refused(code@, message@),
{
    Refusal { body: control_error(code, message), counter: RefusalCounter::Code }
}

/// What the gates decide.
#[derive(Debug)]
pub enum RouteOpenGate {
    /// A reading that was needed had failed.
    Fault(RouterError),
    Refused(Refusal),
    /// The caller may relay a bind for this principal and project root.
    Passed { principal: Principal, project_root: String },
}

/// A [`RouteOpenGate`] over characters.
#[verifier::ext_equal]
pub enum GateView {
    Fault(FaultView),
    Refused(RefusalView),
    Passed { principal: PrincipalView, project_root: Seq<char> },
}

impl View for RouteOpenGate {
    type V = GateView;

    open spec fn view(&self) -> GateView {
        match *self {
            RouteOpenGate::Fault(f) => GateView::Fault(f@),
            RouteOpenGate::Refused(r) => GateView::Refused(r@),
            RouteOpenGate::Passed { principal, project_root } => GateView::Passed {
                principal: principal@,
                project_root: project_root@,
            },
        }
    }
}

/// `module_id '<id>'` and what is said of it.
pub open spec fn of_module(id: Seq<char>, said: Seq<char>) -> Seq<char> {
    "module_id '"@ + id + said
}

fn say_of_module(id: &str, said: &str) -> (r: String)
    ensures
        r@ == of_module(id@, said@),
{
    about("module_id '", id, said)
}

/// The answer for a target that is not registered: what the supervisor says of
/// it, else how long ago it was removed, else that it is unknown. A module that
/// speaks no protocol never registers, so its absence is no matter of waiting.
pub open spec fn absent_target(
    id: Seq<char>,
    supervised: Option<SupervisedStatus>,
    removed_ago_ms: Option<u64>,
) -> RefusalView {
    match supervised {
        Some(status) => if status.protocol is NoProtocol {
            refused(
                "module_no_protocol"@,
                of_module(
                    id,
                    "' is declared protocol: none; it speaks no subc wire and serves no routes"@,
                ),
            )
        } else {
            refused(
                if status.warming {
                    "module_warming"@
                } else {
                    "target_unavailable"@
                },
                of_module(id, "' is supervised but not available (state="@) + status.state@
                    + ", enabled="@ + bool_word(status.enabled) + ", live="@ + bool_word(
                    status.live,
                ) + ")"@,
            )
        },
        None => match removed_ago_ms {
            Some(ms) => refused(
                "module_removed"@,
                of_module(id, "' was removed "@) + decimal(ms as nat) + " ms ago"@,
            ),
            None => refused("unknown_module"@, of_module(id, "' is not registered"@)),
        },
    }
}

fn refuse_absent_target(
    id: &str,
    supervised: &Option<SupervisedStatus>,
    removed_ago_ms: Option<u64>,
) -> (r: Refusal)
    ensures
        r@ == absent_target(id@, *supervised, removed_ago_ms),
{
    match supervised {
        Some(status) => {
            match status.protocol {
                ModuleProtocol::NoProtocol => {
                    return refuse(
                        "module_no_protocol",
                        say_of_module(
                            id,
                            "' is declared protocol: none; it speaks no subc wire and serves no routes",
                        ),
                    );
                },
                ModuleProtocol::Subc => {},
            }
            let code = if status.warming {
                "module_warming"
            } else {
                "target_unavailable"
            };
            refuse(
                code,
                say_of_module(id, "' is supervised but not available (state=").concat(
                    status.state.as_str(),
                ).concat(", enabled=").concat(bool_text(status.enabled)).concat(", live=").concat(
                    bool_text(status.live),
                ).concat(")"),
            )
        },
        None => match removed_ago_ms {
            Some(ms) => refuse(
                "module_removed",
                say_of_module(id, "' was removed ").concat(decimal_text(ms).as_str()).concat(
                    " ms ago",
                ),
            ),
            None => refuse("unknown_module", say_of_module(id, "' is not registered")),
        },
    }
}

/// The principal of a request: nothing claimed is direct, a claim that holds is
/// the claimed module, and a claim that does not hold is refused, never weakened.
pub open spec fn principal_of(
    claimed: Option<ConsumerIdentity>,
    authorized: bool,
) -> Result<PrincipalView, RefusalView> {
    match claimed {
        None => Ok(PrincipalView::Direct),
        Some(identity) => if authorized {
            Ok(PrincipalView::Reserved { module_id: identity.module_id@ })
        } else {
            Err(
                refused(
                    "bad_consumer_identity"@,
                    "consumer_identity for module_id '"@ + identity.module_id@
                        + "' did not match a supervised launch nonce"@,
                ),
            )
        },
    }
}

/// The principal of a request.
pub fn route_open_principal(claimed: &Option<ConsumerIdentity>, authorized: bool) -> (r: Result<
    Principal,
    Refusal,
>)
    ensures
        r matches Ok(p) ==> principal_of(*claimed, authorized) == Ok::<
            PrincipalView,
            RefusalView,
        >(p@),
        r matches Err(e) ==> principal_of(*claimed, authorized) == Err::<
            PrincipalView,
            RefusalView,
        >(e@),
{
    match claimed {
        None => Ok(Principal::Direct),
        Some(identity) => if authorized {
            Ok(Principal::Reserved { module_id: identity.module_id.clone() })
        } else {
            Err(
                refuse(
                    "bad_consumer_identity",
                    about(
                        "consumer_identity for module_id '",
                        identity.module_id.as_str(),
                        "' did not match a supervised launch nonce",
                    ),
                ),
            )
        },
    }
}

/// Why the principal may not reach the target, if it may not: a supervised module
/// that must never reach a capability which the target claims. Direct callers are
/// bound by no such edge, and a module's own claims are no exception to its
/// denials.
pub open spec fn capability_edge(
    principal: PrincipalView,
    opener: Option<OpenerRegistration>,
    target: Option<CapabilityDeclarations>,
    id: Seq<char>,
) -> Option<RefusalView> {
    match (principal, opener) {
        (PrincipalView::Reserved { module_id }, Some(o)) => {
            let denied = match o.capabilities {
                Some(c) => c@.must_never_reach,
                None => Seq::empty(),
            };
            let claimed = match target {
                Some(c) => c@.provides,
                None => Seq::empty(),
            };
            match first_denied(denied, claimed) {
                Some(capability) => Some(
                    refused(
                        "capability_forbidden"@,
                        of_module(module_id, "' must never reach capability '"@) + capability
                            + "' provided by '"@ + id + "'"@,
                    ),
                ),
                None => None,
            }
        },
        _ => None,
    }
}

/// Whether the principal is the configured carrier.
pub open spec fn is_carrier(policy: AdmissionFactsPolicy, principal: PrincipalView) -> bool {
    principal matches PrincipalView::Reserved { module_id } && policy.carrier_module_id matches Some(
        carrier,
    ) && carrier@ == module_id
}

/// Why admission facts may not go to the target, if they may not.
pub open spec fn facts_refusal(
    policy: AdmissionFactsPolicy,
    principal: PrincipalView,
    id: Seq<char>,
) -> Option<RefusalView> {
    if !is_carrier(policy, principal) {
        Some(
            refused(
                "admission_facts_not_permitted"@,
                "admission facts may only be carried by the configured reserved module"@,
            ),
        )
    } else if !(policy.targets matches Some(targets) && texts(targets@).contains(id)) {
        Some(
            refused(
                "admission_facts_target_not_allowed"@,
                "admission facts are not permitted for target module_id '"@ + id + "'"@,
            ),
        )
    } else {
        None
    }
}

fn refuse_facts(policy: &AdmissionFactsPolicy, principal: &Principal, id: &str) -> (r: Option<
    Refusal,
>)
    ensures
        r is Some <==> facts_refusal(*policy, principal@, id@) is Some,
        r matches Some(e) ==> facts_refusal(*policy, principal@, id@) == Some(e@),
{
    let carrier_matches: bool = match (principal, &policy.carrier_module_id) {
        (Principal::Reserved { module_id }, Some(carrier)) => same(
            carrier.as_str(),
            module_id.as_str(),
        ),
        _ => false,
    };
    if !carrier_matches {
        return Some(
            refuse(
                "admission_facts_not_permitted",
                String::from_str(
                    "admission facts may only be carried by the configured reserved module",
                ),
            ),
        );
    }
    let target_allowed: bool = match &policy.targets {
        Some(targets) => contains_text(targets, id),
        None => false,
    };
    if !target_allowed {
        return Some(
            refuse(
                "admission_facts_target_not_allowed",
                about("admission facts are not permitted for target module_id '", id, "'"),
            ),
        );
    }
    None
}

/// What stands in the way of a registered target, if anything does: it is not
/// ready, lacks the wanted role, is not active, is being reloaded, is dead, has no
/// live connection or does not grant binds. The first of these is told.
pub open spec fn target_gate(
    target: RouteTarget,
    registration: TargetRegistration,
    facts: RouteOpenFacts,
    corr: u64,
) -> Option<GateView> {
    let id = target@.module_id();
    if !registration.ready {
        Some(
            GateView::Refused(
                RefusalView {
                    body: ErrorView {
                        code: "module_warming"@,
                        message: of_module(
                            id,
                            "' is registered and has declared itself not ready; retry"@,
                        ),
                        detail: Some(
                            DetailView::Field { name: "reason"@, value: "declared_not_ready"@ },
                        ),
                    },
                    counter: RefusalCounter::DeclaredNotReady,
                },
            ),
        )
    } else if !target@.served_by_any(role_views(registration.provides@)) {
        Some(
            GateView::Refused(
                refused(
                    "target_unavailable"@,
                    of_module(id, "' does not provide the requested target"@),
                ),
            ),
        )
    } else if !registration.active {
        Some(
            GateView::Refused(refused("target_unavailable"@, of_module(id, "' is not active"@))),
        )
    } else {
        match facts.draining {
            Err(err) => Some(GateView::Fault(FaultView::Forwarding(err))),
            Ok(true) => Some(
                GateView::Refused(refused("module_reloading"@, of_module(id, "' is reloading"@))),
            ),
            Ok(false) => if facts.process_live == Some(false) {
                Some(
                    GateView::Refused(
                        refused("target_unavailable"@, of_module(id, "' is not live"@)),
                    ),
                )
            } else {
                match facts.live_connection {
                    Err(err) => Some(GateView::Fault(FaultView::Forwarding(err))),
                    Ok(false) => Some(
                        GateView::Refused(
                            refused(
                                "target_unavailable"@,
                                of_module(id, "' has no live forwarding connection"@),
                            ),
                        ),
                    ),
                    Ok(true) => match facts.control_ops {
                        Err(text) => Some(GateView::Fault(backend_fault(corr, text@))),
                        Ok(ops) => match op_guard(ops, id, ROUTE_BIND@) {
                            Some(refusal) => Some(GateView::Refused(refusal)),
                            None => None,
                        },
                    },
                }
            },
        }
    }
}

/// The answer for a module that does not grant `op`: one that is not registered
/// grants nothing.
pub open spec fn op_guard(control_ops: Option<Vec<String>>, id: Seq<char>, op: Seq<char>) -> Option<
    RefusalView,
> {
    if control_ops matches Some(ops) && grants(texts(ops@), op) {
        None
    } else {
        Some(
            refused(
                "op_not_allowed"@,
                of_module(id, "' did not grant control op '"@) + op + "'"@,
            ),
        )
    }
}

/// Refuses a control operation that the module does not grant. `control_ops` are
/// those of its registration.
pub fn guard_module_control_op(control_ops: &Option<Vec<String>>, module_id: &str, op: &str) -> (r:
    Option<Refusal>)
    ensures
        r is Some <==> op_guard(*control_ops, module_id@, op@) is Some,
        r matches Some(refusal) ==> op_guard(*control_ops, module_id@, op@) == Some(refusal@),
{
    let granted: bool = match control_ops {
        Some(ops) => module_registration_grants_op(ops, op),
        None => false,
    };
    if granted {
        None
    } else {
        Some(
            refuse(
                "op_not_allowed",
                say_of_module(module_id, "' did not grant control op '").concat(op).concat("'"),
            ),
        )
    }
}

/// The gates of a `route.open`, in their order: the target as the registry, the
/// supervisor and the forwarding table know it; the caller's identity; what the
/// caller must never reach; the admission facts; the project root.
pub open spec fn gate<S, F>(
    request: RouteOpenRequest<S, F>,
    facts: RouteOpenFacts,
    policy: AdmissionFactsPolicy,
    corr: u64,
) -> GateView {
    let id = request.target@.module_id();
    match facts.registration {
        Err(text) => GateView::Fault(backend_fault(corr, text@)),
        Ok(None) => match facts.supervised {
            Err(text) => GateView::Fault(backend_fault(corr, text@)),
            Ok(supervised) => GateView::Refused(
                absent_target(id, supervised, facts.removed_ago_ms),
            ),
        },
        Ok(Some(registration)) => match target_gate(request.target, registration, facts, corr) {
            Some(stopped) => stopped,
            None => caller_gate(request, registration, facts, policy, corr),
        },
    }
}

/// The gates that concern the caller of a reachable target.
pub open spec fn caller_gate<S, F>(
    request: RouteOpenRequest<S, F>,
    registration: TargetRegistration,
    facts: RouteOpenFacts,
    policy: AdmissionFactsPolicy,
    corr: u64,
) -> GateView {
    let id = request.target@.module_id();
    match principal_of(request.consumer_identity, facts.consumer_authorized) {
        Err(refusal) => GateView::Refused(refusal),
        Ok(principal) => {
            if principal is Reserved && facts.opener is Err {
                GateView::Fault(backend_fault(corr, facts.opener->Err_0@))
            } else {
                let opener = match facts.opener {
                    Ok(opener) => opener,
                    Err(_) => None,
                };
                match capability_edge(principal, opener, registration.capabilities, id) {
                    Some(refusal) => GateView::Refused(refusal),
                    None => {
                        let facts_stop = if request.admission_facts is Some {
                            facts_refusal(policy, principal, id)
                        } else {
                            None
                        };
                        match facts_stop {
                            Some(refusal) => GateView::Refused(refusal),
                            None => match facts.project_root {
                                Err(text) => GateView::Refused(bad_project_root(text@)),
                                Ok(root) => GateView::Passed { principal, project_root: root@ },
                            },
                        }
                    },
                }
            }
        },
    }
}

/// The answer for a project root that is none. It is malformed input, so it is
/// not counted as a refused open.
pub open spec fn bad_project_root(text: Seq<char>) -> RefusalView {
    RefusalView {
        body: error_of("invalid_project_root"@, text),
        counter: RefusalCounter::Uncounted,
    }
}

fn refuse_unready_target(id: &str) -> (r: Refusal)
    ensures
        r@ == (RefusalView {
            body: ErrorView {
                code: "module_warming"@,
                message: of_module(
                    id@,
                    "' is registered and has declared itself not ready; retry"@,
                ),
                detail: Some(DetailView::Field { name: "reason"@, value: "declared_not_ready"@ }),
            },
            counter: RefusalCounter::DeclaredNotReady,
        }),
{
    Refusal {
        body: control_error_with_field(
            "module_warming",
            say_of_module(id, "' is registered and has declared itself not ready; retry"),
            "reason",
            "declared_not_ready",
        ),
        counter: RefusalCounter::DeclaredNotReady,
    }
}

/// Takes a `route.open` through its gates.
pub fn route_open_gate<S, F>(
    request: &RouteOpenRequest<S, F>,
    facts: RouteOpenFacts,
    policy: &AdmissionFactsPolicy,
    corr: u64,
) -> (r: RouteOpenGate)
    ensures
        r@ == gate(*request, facts, *policy, corr),
{
    let id: &str = target_module_id(&request.target);
    let registration: TargetRegistration = match facts.registration {
        Err(text) => {
            return RouteOpenGate::Fault(backend(corr, text));
        },
        Ok(None) => {
            return match facts.supervised {
                Err(text) => RouteOpenGate::Fault(backend(corr, text)),
                Ok(supervised) => RouteOpenGate::Refused(
                    refuse_absent_target(id, &supervised, facts.removed_ago_ms),
                ),
            };
        },
        Ok(Some(registration)) => registration,
    };

    if !registration.ready {
        return RouteOpenGate::Refused(refuse_unready_target(id));
    }
    if !target_has_required_role(&request.target, &registration.provides) {
        return RouteOpenGate::Refused(
            refuse(
                "target_unavailable",
                say_of_module(id, "' does not provide the requested target"),
            ),
        );
    }
    if !registration.active {
        return RouteOpenGate::Refused(
            refuse("target_unavailable", say_of_module(id, "' is not active")),
        );
    }
    match facts.draining {
        Err(err) => {
            return RouteOpenGate::Fault(RouterError::Forwarding(err));
        },
        Ok(draining) => {
            if draining {
                return RouteOpenGate::Refused(
                    refuse("module_reloading", say_of_module(id, "' is reloading")),
                );
            }
        },
    }
    if let Some(live) = facts.process_live {
        if !live {
            return RouteOpenGate::Refused(
                refuse("target_unavailable", say_of_module(id, "' is not live")),
            );
        }
    }
    match facts.live_connection {
        Err(err) => {
            return RouteOpenGate::Fault(RouterError::Forwarding(err));
        },
        Ok(connected) => {
            if !connected {
                return RouteOpenGate::Refused(
                    refuse(
                        "target_unavailable",
                        say_of_module(id, "' has no live forwarding connection"),
                    ),
                );
            }
        },
    }
    match facts.control_ops {
        Err(text) => {
            return RouteOpenGate::Fault(backend(corr, text));
        },
        Ok(ops) => {
            if let Some(refusal) = guard_module_control_op(&ops, id, ROUTE_BIND) {
                return RouteOpenGate::Refused(refusal);
            }
        },
    }

    let principal: Principal = match route_open_principal(
        &request.consumer_identity,
        facts.consumer_authorized,
    ) {
        Err(refusal) => {
            return RouteOpenGate::Refused(refusal);
        },
        Ok(principal) => principal,
    };

    if let Principal::Reserved { module_id } = &principal {
        match &facts.opener {
            Err(text) => {
                return RouteOpenGate::Fault(backend(corr, text.clone()));
            },
            Ok(Some(opener)) => {
                let denied: Option<String> = denied_capability(
                    opener.capabilities.as_ref(),
                    registration.capabilities.as_ref(),
                );
                if let Some(capability) = denied {
                    return RouteOpenGate::Refused(
                        refuse(
                            "capability_forbidden",
                            say_of_module(
                                module_id.as_str(),
                                "' must never reach capability '",
                            ).concat(capability.as_str()).concat("' provided by '").concat(
                                id,
                            ).concat("'"),
                        ),
                    );
                }
            },
            Ok(None) => {},
        }
    }
    if request.admission_facts.is_some() {
        if let Some(refusal) = refuse_facts(policy, &principal, id) {
            return RouteOpenGate::Refused(refusal);
        }
    }
    match facts.project_root {
        Err(text) => RouteOpenGate::Refused(
            Refusal {
                body: control_error("invalid_project_root", text),
                counter: RefusalCounter::Uncounted,
            },
        ),
        Ok(project_root) => RouteOpenGate::Passed { principal, project_root },
    }
}

/// What is told when a target has as many binds in flight as it may.
pub open spec fn target_full(id: Seq<char>, in_flight: nat) -> RefusalView {
    refused(
        "target_unavailable"@,
        of_module(id, "' already has "@) + decimal(in_flight)
            + " route.bind relays in flight; retry after one settles"@,
    )
}

/// What is told when a connection has as many opens in flight as it may.
pub open spec fn connection_full(limit: nat) -> RefusalView {
    refused(
        "target_unavailable"@,
        "connection already has "@ + decimal(limit)
            + " route.open binds in flight; retry after one settles"@,
    )
}

/// Refuses an open of a connection that has `limit` opens in flight.
pub fn route_open_capacity_refusal(limit: usize) -> (r: Refusal)
    ensures
        r@ == connection_full(limit as nat),
{
    refuse(
        "target_unavailable",
        String::from_str("connection already has ").concat(
            decimal_text(limit as u64).as_str(),
        ).concat(" route.open binds in flight; retry after one settles"),
    )
}

/// What is told while the target's breaker is open.
pub open spec fn breaker_open(
    id: Seq<char>,
    consecutive_timeouts: u32,
    retry_in: nat,
    probe_in_flight: bool,
) -> RefusalView {
    RefusalView {
        body: error_of(
            "module_timeout"@,
            of_module(id, "' failed "@) + decimal(consecutive_timeouts as nat)
                + " consecutive route.bind relays; "@ + (if probe_in_flight {
                "one probe bind is already in flight; retry once it settles"@
            } else {
                "not relaying for another "@ + duration_words(retry_in)
            }),
        ),
        counter: RefusalCounter::BreakerOpen,
    }
}

/// Refuses an open to a target whose breaker is open.
pub fn route_open_breaker_refusal(
    module_id: &str,
    consecutive_timeouts: u32,
    retry_in: &Span,
    probe_in_flight: bool,
) -> (r: Refusal)
    ensures
        r@ == breaker_open(module_id@, consecutive_timeouts, retry_in@, probe_in_flight),
{
    let detail: String = if probe_in_flight {
        String::from_str("one probe bind is already in flight; retry once it settles")
    } else {
        String::from_str("not relaying for another ").concat(retry_in.to_text().as_str())
    };
    Refusal {
        body: control_error(
            "module_timeout",
            say_of_module(module_id, "' failed ").concat(
                decimal_text(consecutive_timeouts as u64).as_str(),
            ).concat(" consecutive route.bind relays; ").concat(detail.as_str()),
        ),
        counter: RefusalCounter::BreakerOpen,
    }
}

/// Whether an open that passed its gates may relay its bind.
#[derive(Debug)]
pub enum RelayAdmission {
    Refused(Refusal),
    Admitted {
        /// The open is the one probe of the target's open breaker.
        probe: bool,
    },
}

/// A [`RelayAdmission`] over characters.
#[verifier::ext_equal]
pub enum RelayAdmissionView {
    Refused(RefusalView),
    Admitted { probe: bool },
}

impl View for RelayAdmission {
    type V = RelayAdmissionView;

    open spec fn view(&self) -> RelayAdmissionView {
        match *self {
            RelayAdmission::Refused(r) => RelayAdmissionView::Refused(r@),
            RelayAdmission::Admitted { probe } => RelayAdmissionView::Admitted { probe },
        }
    }
}

/// Whether an open may relay its bind: the target's cap on binds in flight comes
/// first, its breaker second.
pub open spec fn relay_admission(
    counts: Map<Seq<char>, usize>,
    breakers: crate::control::breaker::BreakerMap,
    id: Seq<char>,
    limit: usize,
    now: nat,
) -> RelayAdmissionView {
    if in_flight(counts, id) >= limit {
        RelayAdmissionView::Refused(target_full(id, in_flight(counts, id) as nat))
    } else {
        match admission(breakers, id, now) {
            AdmissionView::Refused { consecutive_timeouts, retry_in, probe_in_flight } =>
                RelayAdmissionView::Refused(
                    breaker_open(id, consecutive_timeouts, retry_in, probe_in_flight),
                ),
            AdmissionView::Admitted { probe } => RelayAdmissionView::Admitted { probe },
        }
    }
}

/// Asks for a relay to the target. Only an admitted open is counted, and only an
/// admitted probe takes the breaker's slot.
pub fn admit_relay(
    concurrency: &mut RouteBindConcurrency,
    breakers: &mut RouteBindBreakers,
    module_id: &str,
    limit: usize,
    now: u128,
) -> (r: RelayAdmission)
    requires
        old(concurrency).wf(),
        old(breakers).wf(),
    ensures
        final(concurrency).wf(),
        final(breakers).wf(),
        r@ == relay_admission(
            old(concurrency)@,
            old(breakers)@,
            module_id@,
            limit,
            now as nat,
        ),
        r is Admitted ==> final(concurrency)@ == admitted(old(concurrency)@, module_id@),
        r is Admitted ==> final(breakers)@ == after_admission(
            old(breakers)@,
            module_id@,
            now as nat,
        ),
        r is Refused ==> final(concurrency)@ == old(concurrency)@,
        r is Refused ==> final(breakers)@ == old(breakers)@,
{
    let ghost counts = concurrency@;
    match concurrency.try_admit(module_id, limit) {
        Err(count) => {
            return RelayAdmission::Refused(
                refuse(
                    "target_unavailable",
                    say_of_module(module_id, "' already has ").concat(
                        decimal_text(count as u64).as_str(),
                    ).concat(" route.bind relays in flight; retry after one settles"),
                ),
            );
        },
        Ok(()) => {},
    }
    match breakers.admit_open(module_id, now) {
        RouteBindAdmission::Admitted { probe } => RelayAdmission::Admitted { probe },
        RouteBindAdmission::Refused { consecutive_timeouts, retry_in, probe_in_flight } => {
            concurrency.release(module_id);
            proof {
                old(concurrency).idle_modules_have_no_entry(module_id@);
                release_undoes_admission(counts, module_id@);
            }
            RelayAdmission::Refused(
                route_open_breaker_refusal(
                    module_id,
                    consecutive_timeouts,
                    &retry_in,
                    probe_in_flight,
                ),
            )
        },
    }
}

/// The bind that is relayed to the target for an open.
#[derive(Debug)]
pub struct RouteBind<S, F> {
    pub route_channel: u16,
    pub epoch: u32,
    pub target: RouteTarget,
    pub identity: BindIdentity<S>,
    pub principal: Principal,
    pub consumer_capabilities: Option<Vec<String>>,
    pub admission_facts: Option<F>,
}

/// The bind for an open: all that the client sent is carried on as it came, but
/// for the project root, which is the resolved one, and the identity, in whose
/// place the principal stands.
pub fn route_bind<S, F>(
    request: RouteOpenRequest<S, F>,
    principal: Principal,
    project_root: String,
    module_channel: u16,
    module_epoch: u32,
) -> (r: RouteBind<S, F>)
    ensures
        r.route_channel == module_channel,
        r.epoch == module_epoch,
        r.target == request.target,
        r.identity.project_root == project_root,
        r.identity.session == request.identity.session,
        r.principal == principal,
        r.consumer_capabilities == request.consumer_capabilities,
        r.admission_facts == request.admission_facts,
{
    RouteBind {
        route_channel: module_channel,
        epoch: module_epoch,
        target: request.target,
        identity: BindIdentity { project_root, session: request.identity.session },
        principal,
        consumer_capabilities: request.consumer_capabilities,
        admission_facts: request.admission_facts,
    }
}

/// The GOODBYE for a bind that was given up while it was being sent: the module
/// would otherwise keep a binding that nobody holds. `held` is whether the
/// forwarding table still held the bind once it was sent.
pub fn abandoned_bind_goodbye(
    held: bool,
    negotiated_ver: u8,
    module_channel: u16,
    module_epoch: u32,
) -> (r: Option<FrameHeader>)
    ensures
        r == (if held {
            None
        } else {
            Some(goodbye(negotiated_ver, module_channel, module_epoch))
        }),
{
    if held {
        None
    } else {
        Some(goodbye_header(negotiated_ver, module_channel, module_epoch))
    }
}

/// How a relayed bind ends.
#[derive(Debug)]
pub enum RelayEnd {
    /// No channel pair could be reserved.
    BeginFailed(ForwardingFailure),
    /// The bind could not be encoded.
    EncodeFailed(String),
    /// The frame of the bind could not be built.
    BuildFailed(String),
    /// The bind could not be sent to the module.
    SendFailed(String),
    /// The sent bind could not be marked as sent.
    MarkFailed(ForwardingError),
    Accepted,
    /// The module said no, in its own words.
    Rejected(ErrorBody),
    /// The module's connection went.
    ModuleGone(String),
    /// The waiter was cancelled.
    WaiterCanceled,
    /// The budget ran out with no answer.
    TimedOut,
    /// The client went, and with it the handler.
    HandlerDropped,
}

/// What the client is told at the end.
#[derive(Debug)]
pub enum RelayAnswer {
    /// Nothing: the route was published when the module accepted it, or nobody is
    /// there to be told.
    Silent,
    Refused(Refusal),
    Fault(RouterError),
}

/// A [`RelayAnswer`] over characters.
#[verifier::ext_equal]
pub enum RelayAnswerView {
    Silent,
    Refused(RefusalView),
    Fault(FaultView),
}

impl View for RelayAnswer {
    type V = RelayAnswerView;

    open spec fn view(&self) -> RelayAnswerView {
        match *self {
            RelayAnswer::Silent => RelayAnswerView::Silent,
            RelayAnswer::Refused(r) => RelayAnswerView::Refused(r@),
            RelayAnswer::Fault(f) => RelayAnswerView::Fault(f@),
        }
    }
}

/// What the client is told.
pub open spec fn relay_answer(end: RelayEnd, id: Seq<char>, budget: nat, corr: u64) -> RelayAnswerView {
    match end {
        RelayEnd::BeginFailed(f) => RelayAnswerView::Refused(
            refused(forwarding_code(f.error), f.text@),
        ),
        RelayEnd::EncodeFailed(text) => RelayAnswerView::Fault(
            backend_fault(corr, "failed to encode route.bind request: "@ + text@),
        ),
        RelayEnd::BuildFailed(text) => RelayAnswerView::Fault(FaultView::FrameBuild(text@)),
        RelayEnd::SendFailed(text) => RelayAnswerView::Refused(
            refused("target_unavailable"@, text@),
        ),
        RelayEnd::MarkFailed(err) => RelayAnswerView::Fault(FaultView::Forwarding(err)),
        RelayEnd::Accepted => RelayAnswerView::Silent,
        RelayEnd::Rejected(body) => RelayAnswerView::Refused(
            RefusalView { body: body@, counter: RefusalCounter::ModuleRejected },
        ),
        RelayEnd::ModuleGone(text) => RelayAnswerView::Refused(
            refused("target_unavailable"@, text@),
        ),
        RelayEnd::WaiterCanceled => RelayAnswerView::Refused(
            refused(
                "target_unavailable"@,
                "route.bind relay waiter was canceled before the module responded"@,
            ),
        ),
        RelayEnd::TimedOut => RelayAnswerView::Refused(
            refused(
                "module_timeout"@,
                of_module(id, "' did not answer route.bind within "@) + duration_words(budget),
            ),
        ),
        RelayEnd::HandlerDropped => RelayAnswerView::Silent,
    }
}

/// What is recorded of the target: an acceptance clears it, a timeout counts, and
/// nothing else moves it but to free a probe's slot.
pub open spec fn breakers_after(
    m: crate::control::breaker::BreakerMap,
    end: RelayEnd,
    id: Seq<char>,
    threshold: u32,
    cooldown: nat,
    now: nat,
) -> crate::control::breaker::BreakerMap {
    match end {
        RelayEnd::Accepted => m.remove(id),
        RelayEnd::TimedOut => after_timeout(m, id, threshold, cooldown, now),
        _ => after_inconclusive(m, id),
    }
}

/// The end of a relayed bind, settled.
#[derive(Debug)]
pub struct RelaySettlement {
    pub answer: RelayAnswer,
    /// The channel pair is given back. It is kept by an accepted bind, and there
    /// is none where none could be reserved.
    pub release_reservation: bool,
    /// The acceptance closed an open breaker.
    pub breaker_closed: bool,
    /// The timeout opened the breaker.
    pub breaker_opened: Option<BreakerOpened>,
}

/// The breaker policy of a handler.
#[derive(Clone, Copy, Debug)]
pub struct BreakerPolicy {
    pub threshold: u32,
    pub cooldown: Span,
}

/// Settles an admitted relay. Whatever its end, the target's count goes down by
/// one, and its breaker learns of the end.
pub fn settle_relay(
    concurrency: &mut RouteBindConcurrency,
    breakers: &mut RouteBindBreakers,
    module_id: &str,
    end: RelayEnd,
    policy: &BreakerPolicy,
    budget: &Span,
    corr: u64,
    now: u128,
) -> (r: RelaySettlement)
    requires
        old(concurrency).wf(),
        old(breakers).wf(),
        in_flight(old(concurrency)@, module_id@) > 0,
        now + policy.cooldown@ < SPAN_LIMIT,
    ensures
        final(concurrency).wf(),
        final(breakers).wf(),
        final(concurrency)@ == released(old(concurrency)@, module_id@),
        final(breakers)@ == breakers_after(
            old(breakers)@,
            end,
            module_id@,
            policy.threshold,
            policy.cooldown@,
            now as nat,
        ),
        r.answer@ == relay_answer(end, module_id@, budget@, corr),
        r.release_reservation == !(end is Accepted || end is BeginFailed),
        r.breaker_closed == (end is Accepted && old(breakers)@.dom().contains(module_id@) && old(
            breakers,
        )@[module_id@].cooldown_until is Some),
        r.breaker_opened == (if end is TimedOut {
            opening(old(breakers)@, module_id@, policy.threshold)
        } else {
            None
        }),
{
    concurrency.release(module_id);
    let mut release_reservation: bool = true;
    let mut breaker_closed: bool = false;
    let mut breaker_opened: Option<BreakerOpened> = None;
    let answer: RelayAnswer = match end {
        RelayEnd::Accepted => {
            release_reservation = false;
            breaker_closed = breakers.record_accepted(module_id);
            RelayAnswer::Silent
        },
        RelayEnd::TimedOut => {
            breaker_opened =
            breakers.record_timeout(module_id, policy.threshold, &policy.cooldown, now);
            RelayAnswer::Refused(
                refuse(
                    "module_timeout",
                    say_of_module(module_id, "' did not answer route.bind within ").concat(
                        budget.to_text().as_str(),
                    ),
                ),
            )
        },
        RelayEnd::BeginFailed(failure) => {
            release_reservation = false;
            breakers.record_inconclusive(module_id);
            RelayAnswer::Refused(refuse(forwarding_error_code(&failure.error), failure.text))
        },
        RelayEnd::EncodeFailed(text) => {
            breakers.record_inconclusive(module_id);
            RelayAnswer::Fault(
                backend(
                    corr,
                    String::from_str("failed to encode route.bind request: ").concat(
                        text.as_str(),
                    ),
                ),
            )
        },
        RelayEnd::BuildFailed(text) => {
            breakers.record_inconclusive(module_id);
            RelayAnswer::Fault(RouterError::FrameBuild(text))
        },
        RelayEnd::SendFailed(text) => {
            breakers.record_inconclusive(module_id);
            RelayAnswer::Refused(refuse("target_unavailable", text))
        },
        RelayEnd::MarkFailed(err) => {
            breakers.record_inconclusive(module_id);
            RelayAnswer::Fault(RouterError::Forwarding(err))
        },
        RelayEnd::Rejected(body) => {
            breakers.record_inconclusive(module_id);
            RelayAnswer::Refused(Refusal { body, counter: RefusalCounter::ModuleRejected })
        },
        RelayEnd::ModuleGone(text) => {
            breakers.record_inconclusive(module_id);
            RelayAnswer::Refused(refuse("target_unavailable", text))
        },
        RelayEnd::WaiterCanceled => {
            breakers.record_inconclusive(module_id);
            RelayAnswer::Refused(
                refuse(
                    "target_unavailable",
                    String::from_str(
                        "route.bind relay waiter was canceled before the module responded",
                    ),
                ),
            )
        },
        RelayEnd::HandlerDropped => {
            breakers.record_inconclusive(module_id);
            RelayAnswer::Silent
        },
    };
    RelaySettlement { answer, release_reservation, breaker_closed, breaker_opened }
}

/// Pressure clears by itself, so every refusal of an open that passed its gates
/// and found no free slot or an open breaker has a code that clients retry.
pub proof fn admission_refusals_are_retryable(
    counts: Map<Seq<char>, usize>,
    breakers: crate::control::breaker::BreakerMap,
    id: Seq<char>,
    limit: usize,
    now: nat,
    connection_limit: nat,
)
    ensures
        relay_admission(counts, breakers, id, limit, now) matches RelayAdmissionView::Refused(r)
            ==> retryable_codes().contains(r.body.code),
        retryable_codes().contains(connection_full(connection_limit).body.code),
{
    assert(retryable_codes()[3] == "target_unavailable"@);
    assert(retryable_codes()[4] == "module_timeout"@);
}

/// A caller that proved nothing is never stamped as a supervised module, and one
/// whose proof fails is refused.
pub proof fn only_an_attested_caller_is_reserved(claimed: Option<ConsumerIdentity>, authorized: bool)
    ensures
        principal_of(claimed, authorized) matches Ok(p) ==> (p is Reserved <==> claimed is Some
            && authorized),
        claimed is Some && !authorized ==> principal_of(claimed, authorized) is Err,
        principal_of(claimed, authorized) matches Ok(PrincipalView::Reserved { module_id })
            ==> claimed->0.module_id@ == module_id,
{
}

/// An open that is let through names a registered, ready, active target of the
/// wanted role that is not being reloaded, is not known to be dead and has a live
/// connection; no denied capability stands between caller and target; and facts
/// come from the carrier and go to an allowed target.
pub proof fn what_a_passed_gate_means<S, F>(
    request: RouteOpenRequest<S, F>,
    facts: RouteOpenFacts,
    policy: AdmissionFactsPolicy,
    corr: u64,
)
    requires
        gate(request, facts, policy, corr) is Passed,
    ensures
        facts.registration matches Ok(Some(reg)) && {
            &&& reg.ready
            &&& reg.active
            &&& request.target@.served_by_any(role_views(reg.provides@))
        },
        facts.draining == Ok::<bool, ForwardingError>(false),
        facts.process_live != Some(false),
        facts.live_connection == Ok::<bool, ForwardingError>(true),
        request.consumer_identity is Some ==> facts.consumer_authorized,
        request.consumer_identity is None ==> gate(request, facts, policy, corr)->principal
            is Direct,
        request.admission_facts is Some ==> is_carrier(
            policy,
            gate(request, facts, policy, corr)->principal,
        ) && (policy.targets matches Some(t) && texts(t@).contains(request.target@.module_id())),
{
}

/// A supervised module never gets a route to a module that claims what it must
/// never reach, not even to itself.
pub proof fn a_denied_capability_is_never_reached<S, F>(
    request: RouteOpenRequest<S, F>,
    facts: RouteOpenFacts,
    policy: AdmissionFactsPolicy,
    corr: u64,
    registration: TargetRegistration,
    opener: OpenerRegistration,
    denied: CapabilityDeclarations,
    claimed: CapabilityDeclarations,
)
    requires
        facts.registration == Ok::<Option<TargetRegistration>, String>(Some(registration)),
        facts.opener == Ok::<Option<OpenerRegistration>, String>(Some(opener)),
        request.consumer_identity is Some,
        opener.capabilities == Some(denied),
        registration.capabilities == Some(claimed),
        first_denied(denied@.must_never_reach, claimed@.provides) is Some,
    ensures
        !(gate(request, facts, policy, corr) is Passed),
{
}

/// Only a timeout counts against a target and only an acceptance clears it; any
/// other end of a relay leaves both the count and the cooldown as they were.
pub proof fn only_timeouts_count_and_only_acceptance_clears(
    m: crate::control::breaker::BreakerMap,
    end: RelayEnd,
    id: Seq<char>,
    threshold: u32,
    cooldown: nat,
    now: nat,
)
    requires
        m.dom().contains(id),
        !(end is Accepted),
        !(end is TimedOut),
    ensures
        ({
            let after = breakers_after(m, end, id, threshold, cooldown, now);
            &&& after.dom().contains(id)
            &&& after[id].consecutive_timeouts == m[id].consecutive_timeouts
            &&& after[id].cooldown_until == m[id].cooldown_until
            &&& !after[id].probe_in_flight
        }),
{
}

/// A module's own words in a rejection reach the client unchanged, and never
/// become a counter's key.
pub proof fn a_rejection_is_relayed_verbatim(
    body: ErrorBody,
    id: Seq<char>,
    budget: nat,
    corr: u64,
)
    ensures
        relay_answer(RelayEnd::Rejected(body), id, budget, corr) == RelayAnswerView::Refused(
            RefusalView { body: body@, counter: RefusalCounter::ModuleRejected },
        ),
{
}

} // verus!
