//! What holds of every manifest: its roles, its lanes, its capabilities and its targets.
use crate::control::fault::{
    refuse_to_end_module_connection_for_a_client, ForwardingError, RouterError,
};
use crate::control::hello::{
    hello_accepted, hello_gate, manifest_concurrency_was_defaulted, silent_role, HelloAccepted,
    HelloFacts, HelloGate,
};
use crate::control::laws::catalogs::has_kind;
use crate::control::laws::hellos::{hello_refused, same_lane};
use crate::control::laws::opening::named;
use crate::control::manifest::{
    adds, capability_census_trigger, denied_capability, denied_iff_lists_meet, is_routable_role,
    manifest_provides_routable_role, provider_role_kind, target_module_id, CapabilityDeclarations,
    Concurrency, ModuleManifest, ProviderRole, ProviderRoleKind, RouteTarget,
};
use crate::control::ops::{
    baseline_op_names, is_known_module_push_op, is_known_module_request_op,
    module_baseline_control_ops, module_registration_grants_op, module_to_subc_op_names,
};
use crate::control::route_open::Principal;
use crate::daemon_config::StorageConfig;
use crate::json::{json_array_at, json_failure, json_holds, json_text_at};
use crate::text::{decimal, texts};
use vstd::prelude::*;

verus! {

/// A lane goes by its name, is the same as one of its name, and is copied with it.
pub proof fn a_lane_is_its_name(
    a: &Concurrency,
    b: &Concurrency,
    name: &str,
    same: bool,
    copy: Concurrency,
)
    requires
        call_ensures(Concurrency::name, (a,), name),
        call_ensures(Concurrency::same_as, (a, b), same),
        call_ensures(Concurrency::copied, (a,), copy),
    ensures
        a is ModuleManaged ==> name@ == "ModuleManaged"@,
        *a matches Concurrency::Lane(lane) ==> name@ == lane@,
        same <==> same_lane(*a, *b),
        same_lane(*a, copy),
{
}

/// A role is of its own kind, and only a stage of a pipeline takes no routes.
pub proof fn a_role_is_of_its_kind(role: &ProviderRole, kind: ProviderRoleKind, routable: bool)
    requires
        call_ensures(provider_role_kind, (role,), kind),
        call_ensures(is_routable_role, (role,), routable),
    ensures
        kind is ToolProvider <==> role is ToolProvider,
        kind is PipelineStage <==> role is PipelineStage,
        kind is ManagementSurface <==> role is ManagementSurface,
        kind is InternalService <==> role is InternalService,
        routable <==> !(role is PipelineStage),
{
}

/// A manifest takes routes exactly where one of its roles is more than a stage of a
/// pipeline.
pub proof fn a_manifest_takes_routes_by_its_roles(manifest: &ModuleManifest, r: bool)
    requires
        call_ensures(manifest_provides_routable_role, (manifest,), r),
    ensures
        r <==> has_kind(manifest.provides@, ProviderRoleKind::ToolProvider) || has_kind(
            manifest.provides@,
            ProviderRoleKind::ManagementSurface,
        ) || has_kind(manifest.provides@, ProviderRoleKind::InternalService),
{
    let roles = manifest.provides@;
    let views = manifest@.provides;
    if r {
        let i = choose|i: int|
            0 <= i < views.len() && crate::control::manifest::routable(#[trigger] views[i]);
        assert(views[i] == roles[i]@);
        let _ = roles[i];
    }
    assert forall|i: int| 0 <= i < roles.len() && !((#[trigger] roles[i]) is PipelineStage) implies r by {
        assert(views[i] == roles[i]@);
        assert(crate::control::manifest::routable(views[i]));
    }
}

/// A target is found by the module that it names.
pub proof fn a_target_names_its_module(target: &RouteTarget, r: &str)
    requires
        call_ensures(target_module_id, (target,), r),
    ensures
        r@ == named(*target),
{
}

/// A capability stands between two modules exactly where the one must never reach what
/// the other provides; it is then one of both lists.
pub proof fn what_stands_between_two_modules(
    opening: Option<&CapabilityDeclarations>,
    target: Option<&CapabilityDeclarations>,
    r: Option<String>,
    d: int,
    c: int,
)
    requires
        call_ensures(denied_capability, (opening, target), r),
    ensures
        opening is None || target is None ==> r is None,
        opening matches Some(mine) ==> (target matches Some(theirs) ==> (0 <= d
            < mine.must_never_reach@.len() && 0 <= c < theirs.provides@.len()
            && mine.must_never_reach@[d]@ == theirs.provides@[c]@ ==> r is Some) && (r is Some
            ==> texts(mine.must_never_reach@).contains(r->0@) && texts(theirs.provides@).contains(
            r->0@,
        ))),
{
    let denied = match opening {
        Some(c) => c@.must_never_reach,
        None => Seq::empty(),
    };
    let claimed = match target {
        Some(c) => c@.provides,
        None => Seq::empty(),
    };
    denied_iff_lists_meet(denied, claimed);
    if opening is Some && target is Some {
        let mine = opening->0;
        let theirs = target->0;
        if 0 <= d < mine.must_never_reach@.len() && 0 <= c < theirs.provides@.len()
            && mine.must_never_reach@[d]@ == theirs.provides@[c]@ {
            assert(denied[d] == mine.must_never_reach@[d]@);
            assert(claimed[c] == theirs.provides@[c]@);
            assert(claimed.contains(denied[d]));
        }
    }
}

/// Capabilities call for a census where one is claimed or denied that was not before;
/// the same capabilities never do.
pub proof fn the_same_capabilities_call_for_nothing(
    old: Option<&CapabilityDeclarations>,
    new: Option<&CapabilityDeclarations>,
    r: bool,
    i: int,
)
    requires
        call_ensures(capability_census_trigger, (old, new), r),
    ensures
        new is None ==> !r,
        old == new ==> !r,
        new matches Some(now) ==> (0 <= i < now.provides@.len() && (old matches Some(was)
            ==> !texts(was.provides@).contains(now.provides@[i]@)) ==> r) && (0 <= i
            < now.must_never_reach@.len() && (old matches Some(was) ==> !texts(
            was.must_never_reach@,
        ).contains(now.must_never_reach@[i]@)) ==> r),
{
    if new is Some {
        let now = new->0;
        if 0 <= i < now.provides@.len() {
            assert(now@.provides[i] == now.provides@[i]@);
        }
        if 0 <= i < now.must_never_reach@.len() {
            assert(now@.must_never_reach[i] == now.must_never_reach@[i]@);
        }
        if old == new {
            assert(!adds(now@.provides, now@.provides)) by {
                assert forall|k: int| 0 <= k < now@.provides.len() implies now@.provides.contains(
                    #[trigger] now@.provides[k],
                ) by {}
            }
            assert(!adds(now@.must_never_reach, now@.must_never_reach)) by {
                assert forall|k: int|
                    0 <= k < now@.must_never_reach.len() implies now@.must_never_reach.contains(
                    #[trigger] now@.must_never_reach[k],
                ) by {}
            }
        }
    }
}

/// Every module may be asked for a bind and its status; beyond that, for what it
/// declared.
pub proof fn which_op_a_registration_grants(
    control_ops: &Vec<String>,
    op: &str,
    r: bool,
    base: Vec<String>,
)
    requires
        call_ensures(module_registration_grants_op, (control_ops, op), r),
        call_ensures(module_baseline_control_ops, (), base),
    ensures
        r <==> op@ == "route.bind"@ || op@ == "route.status"@ || texts(control_ops@).contains(op@),
        texts(base@) == seq!["route.bind"@, "route.status"@],
{
    let names = baseline_op_names();
    assert(names[0] == "route.bind"@ && names[1] == "route.status"@);
    if names.contains(op@) {
        let k = choose|k: int| 0 <= k < names.len() && names[k] == op@;
        assert(k == 0 || k == 1);
    }
}

/// A module pushes its status and asks for an update, and for nothing else.
pub proof fn what_a_module_sends(op: Option<&str>, push: bool, request: bool)
    requires
        call_ensures(is_known_module_push_op, (op,), push),
        call_ensures(is_known_module_request_op, (op,), request),
    ensures
        push <==> op is Some && op->0@ == "route.status"@,
        request <==> op is Some && op->0@ == "catalog.update"@,
{
    let names = module_to_subc_op_names();
    assert(names[0] == "catalog.update"@);
    if op is Some && names.contains(op->0@) {
        let k = choose|k: int| 0 <= k < names.len() && names[k] == op->0@;
        assert(k == 0);
    }
}

/// A principal goes by what was proved of it.
pub proof fn a_principal_goes_by_what_was_proved(principal: &Principal, r: String)
    requires
        call_ensures(Principal::label, (principal,), r),
    ensures
        principal is Direct ==> r@ == "direct"@,
        *principal matches Principal::Reserved { module_id } ==> r@ == "reserved:"@ + module_id@,
        principal is Unverified ==> r@ == "Unverified"@,
{
}

/// A module connection is not ended for a client that closes, and is for all else.
pub proof fn when_a_module_connection_ends(
    module_connection_id: u64,
    err: ForwardingError,
    r: Result<(), RouterError>,
)
    requires
        call_ensures(
            refuse_to_end_module_connection_for_a_client,
            (module_connection_id, err),
            r,
        ),
    ensures
        r is Ok <==> (err matches ForwardingError::ConnectionClosing { connection_id }
            && connection_id != module_connection_id),
        r is Err ==> r->Err_0 == RouterError::Forwarding(err),
{
}

/// The body of a HELLO is judged as JSON first; its provenance counts where it has one.
pub proof fn a_hello_is_judged_by_its_body(body: &[u8], facts: HelloFacts, r: HelloGate)
    requires
        call_ensures(hello_gate, (body, facts), r),
    ensures
        json_failure(body@) matches Some(text) ==> hello_refused(
            r,
            "invalid_hello"@,
            "malformed HELLO body: "@ + text,
        ),
        json_failure(body@) is None ==> (facts.capability_grammar matches Err(text)
            ==> hello_refused(r, "invalid_capability_grammar"@, text@)),
        json_failure(body@) is None && facts.capability_grammar is Ok && facts.self_signals is Ok
            && json_holds(body@, "/manifest/provenance"@) ==> (facts.provenance matches Err(text)
            ==> hello_refused(
            r,
            "invalid_manifest"@,
            "malformed manifest provenance: "@ + text@,
        )),
        json_failure(body@) is None && facts.capability_grammar is Ok && facts.self_signals is Ok
            && !json_holds(body@, "/manifest/provenance"@) ==> (facts.hello matches Err(text)
            ==> hello_refused(r, "invalid_hello"@, "malformed HELLO body: "@ + text@)),
{
}

/// A lane was filled in by default exactly where the manifest has a management surface
/// and some role of the raw body is one that names no lane.
pub proof fn when_a_lane_was_filled_in(
    raw_hello: &[u8],
    manifest: &ModuleManifest,
    r: bool,
    i: nat,
)
    requires
        call_ensures(manifest_concurrency_was_defaulted, (raw_hello, manifest), r),
    ensures
        r ==> has_kind(manifest.provides@, ProviderRoleKind::ManagementSurface),
        r ==> json_array_at(raw_hello@, "/manifest/provides"@) is Some,
        has_kind(manifest.provides@, ProviderRoleKind::ManagementSurface) ==> (json_array_at(
            raw_hello@,
            "/manifest/provides"@,
        ) matches Some(n) ==> (i < n && json_text_at(
            raw_hello@,
            "/manifest/provides"@ + "/"@ + decimal(i) + "/"@ + "role"@,
        ) == Some("management_surface"@) && !json_holds(
            raw_hello@,
            "/manifest/provides"@ + "/"@ + decimal(i) + "/"@ + "concurrency"@,
        ) ==> r)),
{
    let roles = manifest.provides@;
    let views = manifest@.provides;
    if r {
        let k = choose|k: int|
            0 <= k < views.len() && (#[trigger] views[k]) is ManagementSurface;
        assert(views[k] == roles[k]@);
        let _ = roles[k];
    }
    if has_kind(roles, ProviderRoleKind::ManagementSurface) {
        let k = choose|k: int| 0 <= k < roles.len() && (#[trigger] roles[k]) is ManagementSurface;
        assert(views[k] == roles[k]@);
        let _ = silent_role(raw_hello@, i);
    }
}

/// A module that is accepted is noted as having had its lane filled in exactly where it
/// was.
pub proof fn hello_notes_a_lane_that_was_filled_in(
    body: &[u8],
    manifest: &ModuleManifest,
    negotiated_ver: u8,
    storage: &Option<StorageConfig>,
    r: HelloAccepted,
    defaulted: bool,
)
    requires
        call_ensures(hello_accepted, (body, manifest, negotiated_ver, storage), r),
        call_ensures(manifest_concurrency_was_defaulted, (body, manifest), defaulted),
    ensures
        r.concurrency_defaulted == defaulted,
        !has_kind(manifest.provides@, ProviderRoleKind::ManagementSurface)
            ==> !r.concurrency_defaulted,
{
    when_a_lane_was_filled_in(body, manifest, defaulted, 0);
}

} // verus!
