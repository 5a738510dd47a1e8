//! What holds of every request for a route: which targets and callers are taken,
//! and what each of the others is told.
use crate::control::answers::{faults, tells};
use crate::control::fault::{ForwardingError, RouterError};
use crate::control::manifest::{
    first_denied, role_views, CapabilityDeclarations, ProviderRole, RouteTarget,
};
use crate::control::ops::baseline_op_names;
use crate::control::route_open::{
    abandoned_bind_goodbye, guard_module_control_op, route_bind, route_open_breaker_refusal,
    route_open_capacity_refusal, route_open_gate, route_open_principal, AdmissionFactsPolicy,
    ConsumerIdentity, OpenerRegistration, Principal, Refusal, RefusalCounter, RouteBind,
    RouteOpenFacts, RouteOpenGate, RouteOpenRequest, TargetRegistration,
};
use crate::control::wire::{ErrorDetail, FrameFlags, FrameHeader, FrameType};
use crate::span::{duration_words, Span};
use crate::text::{decimal, texts};
use vstd::prelude::*;

verus! {

/// The module that a target names.
pub open spec fn named(target: RouteTarget) -> Seq<char> {
    match target {
        RouteTarget::ToolProvider { module_id } => module_id@,
        RouteTarget::ManagementSurface { module_id } => module_id@,
        RouteTarget::InternalService { module_id, .. } => module_id@,
    }
}

/// A role serves a target of its own kind; an internal service only one of its name.
pub open spec fn serves(role: ProviderRole, target: RouteTarget) -> bool {
    match target {
        RouteTarget::ToolProvider { .. } => role is ToolProvider,
        RouteTarget::ManagementSurface { .. } => role is ManagementSurface,
        RouteTarget::InternalService { service_id, .. } => role matches ProviderRole::InternalService {
            service_id: provided,
        } && provided@ == service_id@,
    }
}

/// Some role of a registration serves the target.
pub open spec fn some_role_serves(registration: TargetRegistration, target: RouteTarget) -> bool {
    exists|i: int|
        0 <= i < registration.provides@.len() && serves(
            #[trigger] registration.provides@[i],
            target,
        )
}

/// A refusal of this code and message that is counted under its code.
pub open spec fn refuses(refusal: Refusal, code: Seq<char>, message: Seq<char>) -> bool {
    tells(refusal.body, code, message) && refusal.counter == RefusalCounter::Code
}

/// The request is refused with this code and message.
pub open spec fn stopped(r: RouteOpenGate, code: Seq<char>, message: Seq<char>) -> bool {
    r matches RouteOpenGate::Refused(refusal) && refuses(refusal, code, message)
}

/// The request ends in a fault with this text.
pub open spec fn faulted(r: RouteOpenGate, corr: u64, text: Seq<char>) -> bool {
    r matches RouteOpenGate::Fault(fault) && faults(fault, corr, text)
}

/// The target is there, ready, active, of the wanted role and connected, and its
/// process is not known to be dead.
pub open spec fn target_is_open(
    target: RouteTarget,
    registration: TargetRegistration,
    facts: RouteOpenFacts,
) -> bool {
    &&& facts.registration == Ok::<Option<TargetRegistration>, String>(Some(registration))
    &&& registration.ready
    &&& some_role_serves(registration, target)
    &&& registration.active
    &&& facts.draining == Ok::<bool, ForwardingError>(false)
    &&& facts.process_live != Some(false)
    &&& facts.live_connection == Ok::<bool, ForwardingError>(true)
    &&& facts.control_ops matches Ok(Some(_))
}

/// No capability that the opener must never reach is one that the target provides.
pub open spec fn nothing_denied(
    opener: Option<OpenerRegistration>,
    registration: TargetRegistration,
) -> bool {
    opener matches Some(o) ==> (o.capabilities matches Some(mine) ==> (
    registration.capabilities matches Some(theirs) ==> forall|d: int, c: int|
        0 <= d < mine.must_never_reach@.len() && 0 <= c < theirs.provides@.len() ==> (
        #[trigger] mine.must_never_reach@[d])@ != (#[trigger] theirs.provides@[c])@))
}

/// A caller that claims no identity, or one that the supervisor vouches for, whose
/// own registration could be read and denies it nothing of the target.
pub open spec fn caller_is_allowed(
    claimed: Option<ConsumerIdentity>,
    registration: TargetRegistration,
    facts: RouteOpenFacts,
) -> bool {
    claimed is Some ==> facts.consumer_authorized && facts.opener is Ok && nothing_denied(
        facts.opener->Ok_0,
        registration,
    )
}

/// Facts of an admission come from the configured carrier and go to a target that is
/// on the list.
pub open spec fn facts_are_allowed(
    claimed: Option<ConsumerIdentity>,
    target: RouteTarget,
    policy: AdmissionFactsPolicy,
) -> bool {
    &&& claimed matches Some(identity) && policy.carrier_module_id matches Some(carrier)
        && carrier@ == identity.module_id@
    &&& policy.targets matches Some(targets) && exists|i: int|
        0 <= i < targets@.len() && (#[trigger] targets@[i])@ == named(target)
}

proof fn a_target_is_served_by_a_role(target: RouteTarget, roles: Seq<ProviderRole>)
    ensures
        target@.served_by_any(role_views(roles)) <==> exists|i: int|
            0 <= i < roles.len() && serves(#[trigger] roles[i], target),
        target@.module_id() == named(target),
{
    let views = role_views(roles);
    if target@.served_by_any(views) {
        let i = choose|i: int| 0 <= i < views.len() && target@.served_by(#[trigger] views[i]);
        assert(views[i] == roles[i]@);
        assert(serves(roles[i], target));
    }
    if exists|i: int| 0 <= i < roles.len() && serves(#[trigger] roles[i], target) {
        let i = choose|i: int| 0 <= i < roles.len() && serves(#[trigger] roles[i], target);
        assert(views[i] == roles[i]@);
        assert(target@.served_by(views[i]));
    }
}

proof fn a_list_holds_its_elements(list: Seq<String>, wanted: Seq<char>)
    ensures
        texts(list).contains(wanted) <==> exists|i: int|
            0 <= i < list.len() && (#[trigger] list[i])@ == wanted,
{
    if texts(list).contains(wanted) {
        let i = choose|i: int| 0 <= i < texts(list).len() && texts(list)[i] == wanted;
        assert(list[i]@ == wanted);
    }
    if exists|i: int| 0 <= i < list.len() && (#[trigger] list[i])@ == wanted {
        let i = choose|i: int| 0 <= i < list.len() && (#[trigger] list[i])@ == wanted;
        assert(texts(list)[i] == wanted);
    }
}

proof fn the_first_denial_is_found(denied: Seq<Seq<char>>, claimed: Seq<Seq<char>>, d: int)
    ensures
        0 <= d < denied.len() && claimed.contains(denied[d]) && (forall|k: int|
            0 <= k < d ==> !claimed.contains(#[trigger] denied[k])) ==> first_denied(
            denied,
            claimed,
        ) == Some(denied[d]),
        (forall|k: int| 0 <= k < denied.len() ==> !claimed.contains(#[trigger] denied[k]))
            ==> first_denied(denied, claimed) is None,
    decreases denied.len(),
{
    if denied.len() > 0 {
        let rest = denied.drop_first();
        the_first_denial_is_found(rest, claimed, d - 1);
        if !claimed.contains(denied[0]) {
            if 0 < d < denied.len() && (forall|k: int|
                0 <= k < d ==> !claimed.contains(#[trigger] denied[k])) {
                assert(rest[d - 1] == denied[d]);
                assert forall|k: int| 0 <= k < d - 1 implies !claimed.contains(
                    #[trigger] rest[k],
                ) by {
                    assert(rest[k] == denied[k + 1]);
                }
            }
            if forall|k: int| 0 <= k < denied.len() ==> !claimed.contains(#[trigger] denied[k]) {
                assert forall|k: int| 0 <= k < rest.len() implies !claimed.contains(
                    #[trigger] rest[k],
                ) by {
                    assert(rest[k] == denied[k + 1]);
                }
            }
        }
    }
}

proof fn nothing_denied_means_no_first_denial(
    opener: Option<OpenerRegistration>,
    registration: TargetRegistration,
)
    requires
        nothing_denied(opener, registration),
    ensures
        opener matches Some(o) ==> first_denied(
            match o.capabilities {
                Some(c) => c@.must_never_reach,
                None => Seq::empty(),
            },
            match registration.capabilities {
                Some(c) => c@.provides,
                None => Seq::empty(),
            },
        ) is None,
{
    if opener is Some && opener->0.capabilities is Some {
        let mine = opener->0.capabilities->0;
        let denied = mine@.must_never_reach;
        let claimed = match registration.capabilities {
            Some(c) => c@.provides,
            None => Seq::empty(),
        };
        assert forall|k: int| 0 <= k < denied.len() implies !claimed.contains(
            #[trigger] denied[k],
        ) by {
            assert(denied[k] == mine.must_never_reach@[k]@);
            if claimed.contains(denied[k]) {
                let theirs = registration.capabilities->0;
                let c = choose|c: int| 0 <= c < claimed.len() && claimed[c] == denied[k];
                assert(claimed[c] == theirs.provides@[c]@);
            }
        }
        the_first_denial_is_found(denied, claimed, 0);
    }
}

/// An open target takes every allowed caller: a target that is registered, ready,
/// active, of the wanted role and connected, and whose process is not known to be
/// dead, is opened for a caller that claims nothing or is vouched for and denied
/// nothing, with facts that may be carried, under a root that resolves. The route
/// carries that root, and the caller's identity where one was claimed.
pub proof fn an_open_target_takes_an_allowed_caller<S, F>(
    request: &RouteOpenRequest<S, F>,
    facts: RouteOpenFacts,
    policy: &AdmissionFactsPolicy,
    corr: u64,
    r: RouteOpenGate,
    registration: TargetRegistration,
)
    requires
        call_ensures(route_open_gate::<S, F>, (request, facts, policy, corr), r),
        target_is_open(request.target, registration, facts),
        caller_is_allowed(request.consumer_identity, registration, facts),
        request.admission_facts is Some ==> facts_are_allowed(
            request.consumer_identity,
            request.target,
            *policy,
        ),
        facts.project_root is Ok,
    ensures
        r matches RouteOpenGate::Passed { principal, project_root } && project_root@
            == facts.project_root->Ok_0@ && (request.consumer_identity is None
            ==> principal is Direct) && (request.consumer_identity matches Some(identity) ==> (
        principal matches Principal::Reserved { module_id } && module_id@ == identity.module_id@)),
{
    a_target_is_served_by_a_role(request.target, registration.provides@);
    assert(baseline_op_names()[0] == "route.bind"@);
    if request.consumer_identity is Some {
        nothing_denied_means_no_first_denial(facts.opener->Ok_0, registration);
    }
    if request.admission_facts is Some {
        a_list_holds_its_elements(policy.targets->0@, named(request.target));
    }
}

/// A target that nobody registered is refused by what is known of it: that it speaks
/// no protocol, that it is still warming, that it is supervised and down, that it was
/// removed, or nothing.
pub proof fn an_absent_target_is_refused_by_what_is_known_of_it<S, F>(
    request: &RouteOpenRequest<S, F>,
    facts: RouteOpenFacts,
    policy: &AdmissionFactsPolicy,
    corr: u64,
    r: RouteOpenGate,
)
    requires
        call_ensures(route_open_gate::<S, F>, (request, facts, policy, corr), r),
    ensures
        facts.registration matches Err(text) ==> faulted(r, corr, text@),
        facts.registration matches Ok(None) ==> {
            let id = named(request.target);
            &&& facts.supervised matches Err(text) ==> faulted(r, corr, text@)
            &&& facts.supervised matches Ok(Some(status)) ==> {
                let state = "module_id '"@ + id + "' is supervised but not available (state="@
                    + status.state@ + ", enabled="@ + (if status.enabled {
                    "true"@
                } else {
                    "false"@
                }) + ", live="@ + (if status.live {
                    "true"@
                } else {
                    "false"@
                }) + ")"@;
                &&& status.protocol is NoProtocol ==> stopped(
                    r,
                    "module_no_protocol"@,
                    "module_id '"@ + id
                        + "' is declared protocol: none; it speaks no subc wire and serves no routes"@,
                )
                &&& !(status.protocol is NoProtocol) && status.warming ==> stopped(
                    r,
                    "module_warming"@,
                    state,
                )
                &&& !(status.protocol is NoProtocol) && !status.warming ==> stopped(
                    r,
                    "target_unavailable"@,
                    state,
                )
            }
            &&& facts.supervised matches Ok(None) ==> {
                &&& facts.removed_ago_ms matches Some(ms) ==> stopped(
                    r,
                    "module_removed"@,
                    "module_id '"@ + id + "' was removed "@ + decimal(ms as nat) + " ms ago"@,
                )
                &&& facts.removed_ago_ms is None ==> stopped(
                    r,
                    "unknown_module"@,
                    "module_id '"@ + id + "' is not registered"@,
                )
            }
        },
{
    a_target_is_served_by_a_role(request.target, Seq::empty());
}

/// A registered target that cannot take a route is refused by the first thing that
/// it lacks: it is not ready, does not have the role, is not active, is reloading,
/// is dead, or is not connected.
pub proof fn a_target_is_refused_by_the_first_thing_it_lacks<S, F>(
    request: &RouteOpenRequest<S, F>,
    facts: RouteOpenFacts,
    policy: &AdmissionFactsPolicy,
    corr: u64,
    r: RouteOpenGate,
    registration: TargetRegistration,
)
    requires
        call_ensures(route_open_gate::<S, F>, (request, facts, policy, corr), r),
        facts.registration == Ok::<Option<TargetRegistration>, String>(Some(registration)),
    ensures
        ({
            let id = named(request.target);
            let served = some_role_serves(registration, request.target);
            let present = registration.ready && served && registration.active;
            let running = present && facts.draining == Ok::<bool, ForwardingError>(false)
                && facts.process_live != Some(false);
            &&& !registration.ready ==> (r matches RouteOpenGate::Refused(refusal)
                && refusal.counter == RefusalCounter::DeclaredNotReady && refusal.body.code@
                == "module_warming"@ && refusal.body.message@ == "module_id '"@ + id
                + "' is registered and has declared itself not ready; retry"@ && (
            refusal.body.detail matches Some(ErrorDetail::Field { name, value }) && name@
                == "reason"@ && value@ == "declared_not_ready"@))
            &&& registration.ready && !served ==> stopped(
                r,
                "target_unavailable"@,
                "module_id '"@ + id + "' does not provide the requested target"@,
            )
            &&& registration.ready && served && !registration.active ==> stopped(
                r,
                "target_unavailable"@,
                "module_id '"@ + id + "' is not active"@,
            )
            &&& present ==> (facts.draining matches Err(err) ==> r == RouteOpenGate::Fault(
                RouterError::Forwarding(err),
            ))
            &&& present && facts.draining == Ok::<bool, ForwardingError>(true) ==> stopped(
                r,
                "module_reloading"@,
                "module_id '"@ + id + "' is reloading"@,
            )
            &&& present && facts.draining == Ok::<bool, ForwardingError>(false)
                && facts.process_live == Some(false) ==> stopped(
                r,
                "target_unavailable"@,
                "module_id '"@ + id + "' is not live"@,
            )
            &&& running ==> (facts.live_connection matches Err(err) ==> r == RouteOpenGate::Fault(
                RouterError::Forwarding(err),
            ))
            &&& running && facts.live_connection == Ok::<bool, ForwardingError>(false) ==> stopped(
                r,
                "target_unavailable"@,
                "module_id '"@ + id + "' has no live forwarding connection"@,
            )
            &&& running && facts.live_connection == Ok::<bool, ForwardingError>(true) ==> (
            facts.control_ops matches Err(text) ==> faulted(r, corr, text@))
            &&& running && facts.live_connection == Ok::<bool, ForwardingError>(true) ==> (
            facts.control_ops matches Ok(None) ==> stopped(
                r,
                "op_not_allowed"@,
                "module_id '"@ + id + "' did not grant control op '"@ + "route.bind"@ + "'"@,
            ))
        }),
{
    a_target_is_served_by_a_role(request.target, registration.provides@);
    assert(baseline_op_names()[0] == "route.bind"@);
}

/// A caller that may not open an open target is refused by the first thing that it
/// lacks: its identity is not vouched for, it carries facts that it may not carry or
/// not to this target, or its root does not resolve.
pub proof fn a_caller_is_refused_by_the_first_thing_it_lacks<S, F>(
    request: &RouteOpenRequest<S, F>,
    facts: RouteOpenFacts,
    policy: &AdmissionFactsPolicy,
    corr: u64,
    r: RouteOpenGate,
    registration: TargetRegistration,
)
    requires
        call_ensures(route_open_gate::<S, F>, (request, facts, policy, corr), r),
        target_is_open(request.target, registration, facts),
    ensures
        ({
            let id = named(request.target);
            let claimed = request.consumer_identity;
            let allowed = caller_is_allowed(claimed, registration, facts);
            let carrier = claimed matches Some(identity)
                && policy.carrier_module_id matches Some(carrier) && carrier@
                == identity.module_id@;
            &&& !facts.consumer_authorized ==> (claimed matches Some(identity) ==> stopped(
                r,
                "bad_consumer_identity"@,
                "consumer_identity for module_id '"@ + identity.module_id@
                    + "' did not match a supervised launch nonce"@,
            ))
            &&& claimed is Some && facts.consumer_authorized ==> (facts.opener matches Err(text)
                ==> faulted(r, corr, text@))
            &&& allowed && request.admission_facts is Some && !carrier ==> stopped(
                r,
                "admission_facts_not_permitted"@,
                "admission facts may only be carried by the configured reserved module"@,
            )
            &&& allowed && request.admission_facts is Some && carrier && !facts_are_allowed(
                claimed,
                request.target,
                *policy,
            ) ==> stopped(
                r,
                "admission_facts_target_not_allowed"@,
                "admission facts are not permitted for target module_id '"@ + id + "'"@,
            )
            &&& allowed && (request.admission_facts is Some ==> facts_are_allowed(
                claimed,
                request.target,
                *policy,
            )) ==> (facts.project_root matches Err(text) ==> (
            r matches RouteOpenGate::Refused(refusal) && tells(
                refusal.body,
                "invalid_project_root"@,
                text@,
            ) && refusal.counter == RefusalCounter::Uncounted))
        }),
{
    a_target_is_served_by_a_role(request.target, registration.provides@);
    assert(baseline_op_names()[0] == "route.bind"@);
    if request.consumer_identity is Some && facts.opener is Ok && nothing_denied(
        facts.opener->Ok_0,
        registration,
    ) {
        nothing_denied_means_no_first_denial(facts.opener->Ok_0, registration);
    }
    if policy.targets is Some {
        a_list_holds_its_elements(policy.targets->0@, named(request.target));
    }
}

/// The first capability that a caller must never reach and that the target provides
/// is named in the refusal, with the caller and the target.
pub proof fn the_first_denied_capability_is_named<S, F>(
    request: &RouteOpenRequest<S, F>,
    facts: RouteOpenFacts,
    policy: &AdmissionFactsPolicy,
    corr: u64,
    r: RouteOpenGate,
    registration: TargetRegistration,
    mine: CapabilityDeclarations,
    theirs: CapabilityDeclarations,
    d: int,
    c: int,
)
    requires
        call_ensures(route_open_gate::<S, F>, (request, facts, policy, corr), r),
        target_is_open(request.target, registration, facts),
        request.consumer_identity is Some,
        facts.consumer_authorized,
        facts.opener == Ok::<Option<OpenerRegistration>, String>(
            Some(OpenerRegistration { capabilities: Some(mine) }),
        ),
        registration.capabilities == Some(theirs),
        0 <= d < mine.must_never_reach@.len(),
        0 <= c < theirs.provides@.len(),
        mine.must_never_reach@[d]@ == theirs.provides@[c]@,
        forall|k: int, l: int|
            0 <= k < d && 0 <= l < theirs.provides@.len() ==> (#[trigger] mine.must_never_reach@[
                k
            ])@ != (#[trigger] theirs.provides@[l])@,
    ensures
        stopped(
            r,
            "capability_forbidden"@,
            "module_id '"@ + request.consumer_identity->0.module_id@
                + "' must never reach capability '"@ + mine.must_never_reach@[d]@
                + "' provided by '"@ + named(request.target) + "'"@,
        ),
{
    a_target_is_served_by_a_role(request.target, registration.provides@);
    assert(baseline_op_names()[0] == "route.bind"@);
    let denied = mine@.must_never_reach;
    let claimed = theirs@.provides;
    assert(denied[d] == mine.must_never_reach@[d]@);
    assert(claimed[c] == theirs.provides@[c]@);
    assert forall|k: int| 0 <= k < d implies !claimed.contains(#[trigger] denied[k]) by {
        assert(denied[k] == mine.must_never_reach@[k]@);
        if claimed.contains(denied[k]) {
            let l = choose|l: int| 0 <= l < claimed.len() && claimed[l] == denied[k];
            assert(claimed[l] == theirs.provides@[l]@);
        }
    }
    the_first_denial_is_found(denied, claimed, d);
}

/// A caller is direct where it claims nothing, and reserved under the id that it
/// claims where the supervisor vouches for it.
pub proof fn a_caller_is_who_it_is_vouched_to_be(
    claimed: &Option<ConsumerIdentity>,
    authorized: bool,
    r: Result<Principal, Refusal>,
)
    requires
        call_ensures(route_open_principal, (claimed, authorized), r),
    ensures
        claimed is None ==> r matches Ok(Principal::Direct),
        authorized ==> (claimed matches Some(identity) ==> (r matches Ok(Principal::Reserved {
            module_id,
        }) && module_id@ == identity.module_id@)),
        !authorized ==> (claimed matches Some(identity) ==> r is Err && refuses(
            r->Err_0,
            "bad_consumer_identity"@,
            "consumer_identity for module_id '"@ + identity.module_id@
                + "' did not match a supervised launch nonce"@,
        )),
{
}

/// A module may be asked for what every module answers and for what it declared; any
/// other operation is refused by its name.
pub proof fn only_a_granted_op_passes(
    control_ops: &Option<Vec<String>>,
    module_id: &str,
    op: &str,
    r: Option<Refusal>,
)
    requires
        call_ensures(guard_module_control_op, (control_ops, module_id, op), r),
    ensures
        r is None <==> (control_ops matches Some(ops) && (op@ == "route.bind"@ || op@
            == "route.status"@ || exists|i: int|
            0 <= i < ops@.len() && (#[trigger] ops@[i])@ == op@)),
        r matches Some(refusal) ==> refuses(
            refusal,
            "op_not_allowed"@,
            "module_id '"@ + module_id@ + "' did not grant control op '"@ + op@ + "'"@,
        ),
{
    let base = baseline_op_names();
    assert(base[0] == "route.bind"@ && base[1] == "route.status"@);
    if base.contains(op@) {
        let i = choose|i: int| 0 <= i < base.len() && base[i] == op@;
        assert(i == 0 || i == 1);
    }
    if control_ops is Some {
        a_list_holds_its_elements(control_ops->0@, op@);
    }
}

/// What a module is asked to bind is what was requested, under the resolved root, the
/// vouched-for principal and the channel that was reserved.
pub proof fn a_bind_asks_for_what_was_requested<S, F>(
    request: RouteOpenRequest<S, F>,
    principal: Principal,
    project_root: String,
    module_channel: u16,
    module_epoch: u32,
    r: RouteBind<S, F>,
)
    requires
        call_ensures(
            route_bind::<S, F>,
            (request, principal, project_root, module_channel, module_epoch),
            r,
        ),
    ensures
        r.route_channel == module_channel,
        r.epoch == module_epoch,
        r.target == request.target,
        r.identity.project_root == project_root,
        r.identity.session == request.identity.session,
        r.principal == principal,
        r.consumer_capabilities == request.consumer_capabilities,
        r.admission_facts == request.admission_facts,
{
}

/// A bind that nobody holds any more is ended by a GOODBYE on its own channel and
/// epoch; one that is held is left alone.
pub proof fn an_abandoned_bind_is_ended_on_its_channel(
    held: bool,
    negotiated_ver: u8,
    module_channel: u16,
    module_epoch: u32,
    r: Option<FrameHeader>,
)
    requires
        call_ensures(
            abandoned_bind_goodbye,
            (held, negotiated_ver, module_channel, module_epoch),
            r,
        ),
    ensures
        held ==> r is None,
        !held ==> (r matches Some(header) && header.ver == negotiated_ver && header.ty
            == FrameType::Goodbye && header.flags == FrameFlags::Control && header.channel
            == module_channel && header.epoch == module_epoch && header.corr == 0),
{
}

/// A full connection is told its limit, and a tripped breaker its count and when to
/// come back.
pub proof fn a_full_connection_and_an_open_breaker_say_so(
    limit: usize,
    full: Refusal,
    module_id: &str,
    consecutive_timeouts: u32,
    retry_in: &Span,
    probe_in_flight: bool,
    open: Refusal,
)
    requires
        call_ensures(route_open_capacity_refusal, (limit,), full),
        call_ensures(
            route_open_breaker_refusal,
            (module_id, consecutive_timeouts, retry_in, probe_in_flight),
            open,
        ),
    ensures
        refuses(
            full,
            "target_unavailable"@,
            "connection already has "@ + decimal(limit as nat)
                + " route.open binds in flight; retry after one settles"@,
        ),
        open.counter == RefusalCounter::BreakerOpen,
        ({
            let failed = "module_id '"@ + module_id@ + "' failed "@ + decimal(
                consecutive_timeouts as nat,
            ) + " consecutive route.bind relays; "@;
            &&& probe_in_flight ==> tells(
                open.body,
                "module_timeout"@,
                failed + "one probe bind is already in flight; retry once it settles"@,
            )
            &&& !probe_in_flight ==> tells(
                open.body,
                "module_timeout"@,
                failed + ("not relaying for another "@ + duration_words(retry_in@)),
            )
        }),
{
}

} // verus!
