//! What holds of every registration of a module.
use crate::control::answers::tells;
use crate::control::fault::{ForwardingError, ForwardingFailure, RouterError};
use crate::control::hello::{
    hello_accepted, hello_after_forwarding, hello_after_registry, hello_forwarding_refusal,
    hello_registry_refusal, is_silent_surface, parsed_hello_gate, subc_capabilities, HelloAccepted,
    HelloFacts, HelloGate, HelloNext, HelloRollback, RegistryRefusal, ReservedHelloRejection,
};
use crate::control::manifest::{
    lane_of, manifest_concurrency, role_views, Concurrency, ModuleManifest, ProviderRole,
};
use crate::control::ops::{
    effective_ops, module_subc_ops, module_to_subc_op_names, subc_op_names,
};
use crate::control::wire::ErrorBody;
use crate::daemon_config::StorageConfig;
use crate::text::{decimal, texts, trimmed};
use vstd::prelude::*;

verus! {

/// A role that runs its requests in a lane.
pub open spec fn has_lane(role: ProviderRole) -> bool {
    role is ToolProvider || role is ManagementSurface
}

/// Two lanes go by one name, or the module manages both itself.
pub open spec fn same_lane(a: Concurrency, b: Concurrency) -> bool {
    &&& a is ModuleManaged <==> b is ModuleManaged
    &&& a matches Concurrency::Lane(name) ==> (b matches Concurrency::Lane(other) && name@
        == other@)
}

/// The lane that a role declares.
pub open spec fn declares(role: ProviderRole, lane: Concurrency) -> bool {
    ||| role matches ProviderRole::ToolProvider { concurrency } && same_lane(lane, concurrency)
    ||| role matches ProviderRole::ManagementSurface { concurrency } && same_lane(
        lane,
        concurrency,
    )
}

proof fn the_first_lane_counts(roles: Seq<ProviderRole>, i: int, lane: Concurrency)
    requires
        lane@ == lane_of(role_views(roles)),
    ensures
        0 <= i < roles.len() && has_lane(roles[i]) && (forall|k: int|
            0 <= k < i ==> !has_lane(#[trigger] roles[k])) ==> declares(roles[i], lane),
        (forall|k: int| 0 <= k < roles.len() ==> !has_lane(#[trigger] roles[k]))
            ==> lane is ModuleManaged,
    decreases roles.len(),
{
    if roles.len() > 0 {
        let rest = roles.drop_first();
        assert(role_views(roles)[0] == roles[0]@);
        if !has_lane(roles[0]) {
            assert(role_views(roles).drop_first() =~= role_views(rest));
            the_first_lane_counts(rest, i - 1, lane);
            if 0 < i < roles.len() && (forall|k: int|
                0 <= k < i ==> !has_lane(#[trigger] roles[k])) {
                assert(rest[i - 1] == roles[i]);
                assert forall|k: int| 0 <= k < i - 1 implies !has_lane(#[trigger] rest[k]) by {
                    assert(rest[k] == roles[k + 1]);
                }
            }
            if forall|k: int| 0 <= k < roles.len() ==> !has_lane(#[trigger] roles[k]) {
                assert forall|k: int| 0 <= k < rest.len() implies !has_lane(
                    #[trigger] rest[k],
                ) by {
                    assert(rest[k] == roles[k + 1]);
                }
            }
        }
    }
}

/// A manifest's lane is that of its first role that has one, be it a tool provider
/// or a management surface; a module manages itself only where no role has a lane.
pub proof fn a_manifest_runs_in_its_first_lane(
    manifest: &ModuleManifest,
    r: Concurrency,
    i: int,
)
    requires
        call_ensures(manifest_concurrency, (manifest,), r),
    ensures
        0 <= i < manifest.provides@.len() && has_lane(manifest.provides@[i]) && (forall|k: int|
            0 <= k < i ==> !has_lane(#[trigger] manifest.provides@[k])) ==> declares(
            manifest.provides@[i],
            r,
        ),
        (forall|k: int|
            0 <= k < manifest.provides@.len() ==> !has_lane(#[trigger] manifest.provides@[k]))
            ==> r is ModuleManaged,
{
    the_first_lane_counts(manifest.provides@, i, r);
}

/// The lane told of at HELLO is that of the manifest's first role that has one, and
/// the module's own only where no role has one. The version is the negotiated one.
pub proof fn hello_tells_the_first_lane(
    body: &[u8],
    manifest: &ModuleManifest,
    negotiated_ver: u8,
    storage: &Option<StorageConfig>,
    r: HelloAccepted,
    i: int,
)
    requires
        call_ensures(hello_accepted, (body, manifest, negotiated_ver, storage), r),
    ensures
        0 <= i < manifest.provides@.len() && has_lane(manifest.provides@[i]) && (forall|k: int|
            0 <= k < i ==> !has_lane(#[trigger] manifest.provides@[k])) ==> declares(
            manifest.provides@[i],
            r.concurrency,
        ),
        (forall|k: int|
            0 <= k < manifest.provides@.len() ==> !has_lane(#[trigger] manifest.provides@[k]))
            ==> r.concurrency is ModuleManaged,
        r.ack.negotiated_ver == negotiated_ver,
{
    the_first_lane_counts(manifest.provides@, i, r.concurrency);
}

/// An accepted module provides routes exactly where one of its roles is more than a
/// stage of a pipeline, and its capabilities call for a census exactly where it
/// claims or denies any.
pub proof fn what_an_accepted_module_is_taken_for(
    body: &[u8],
    manifest: &ModuleManifest,
    negotiated_ver: u8,
    storage: &Option<StorageConfig>,
    r: HelloAccepted,
)
    requires
        call_ensures(hello_accepted, (body, manifest, negotiated_ver, storage), r),
    ensures
        r.routable_provider <==> exists|i: int|
            0 <= i < manifest.provides@.len() && !((#[trigger] manifest.provides@[i])
                is PipelineStage),
        manifest.capabilities is None ==> !r.census,
        manifest.capabilities matches Some(c) ==> (r.census <==> c.provides@.len() > 0
            || c.must_never_reach@.len() > 0),
        r.ack.storage is Some <==> storage is Some,
{
    assert forall|i: int| 0 <= i < manifest.provides@.len() implies manifest@.provides[i]
        == #[trigger] manifest.provides@[i]@ by {}
    if r.routable_provider {
        let i = choose|i: int|
            0 <= i < manifest@.provides.len() && crate::control::manifest::routable(
                #[trigger] manifest@.provides[i],
            );
        assert(!(manifest.provides@[i] is PipelineStage));
    }
    if exists|i: int|
        0 <= i < manifest.provides@.len() && !((#[trigger] manifest.provides@[i])
            is PipelineStage) {
        let i = choose|i: int|
            0 <= i < manifest.provides@.len() && !((#[trigger] manifest.provides@[i])
                is PipelineStage);
        assert(crate::control::manifest::routable(manifest@.provides[i]));
    }
    if manifest.capabilities is Some {
        let c = manifest.capabilities->0;
        let view = manifest@.capabilities->0;
        assert(view.provides.len() == c.provides@.len());
        assert(view.must_never_reach.len() == c.must_never_reach@.len());
        if c.provides@.len() > 0 {
            assert(!Seq::<Seq<char>>::empty().contains(view.provides[0]));
        }
        if c.must_never_reach@.len() > 0 {
            assert(!Seq::<Seq<char>>::empty().contains(view.must_never_reach[0]));
        }
    }
}

/// The HELLO is refused with this code and message.
pub open spec fn hello_refused(r: HelloGate, code: Seq<char>, message: Seq<char>) -> bool {
    r matches HelloGate::Refused(e) && tells(e, code, message)
}

/// A HELLO that cannot be read is refused by the first thing that is wrong with it: it
/// is no JSON, or its capabilities, its signals, its provenance or its shape are wrong.
pub proof fn a_hello_is_refused_by_its_first_fault(
    not_json: Option<String>,
    has_provenance: bool,
    facts: HelloFacts,
    r: HelloGate,
)
    requires
        call_ensures(parsed_hello_gate, (not_json, has_provenance, facts), r),
    ensures
        ({
            let grammar = not_json is None && facts.capability_grammar is Ok;
            let signals = grammar && facts.self_signals is Ok;
            let stamped = signals && (!has_provenance || facts.provenance is Ok);
            &&& not_json matches Some(text) ==> hello_refused(
                r,
                "invalid_hello"@,
                "malformed HELLO body: "@ + text@,
            )
            &&& not_json is None ==> (facts.capability_grammar matches Err(text) ==> hello_refused(
                r,
                "invalid_capability_grammar"@,
                text@,
            ))
            &&& grammar ==> (facts.self_signals matches Err(text) ==> hello_refused(
                r,
                "invalid_manifest"@,
                text@,
            ))
            &&& signals && has_provenance ==> (facts.provenance matches Err(text) ==> hello_refused(
                r,
                "invalid_manifest"@,
                "malformed manifest provenance: "@ + text@,
            ))
            &&& stamped ==> (facts.hello matches Err(text) ==> hello_refused(
                r,
                "invalid_hello"@,
                "malformed HELLO body: "@ + text@,
            ))
        }),
{
}

/// A HELLO that could be read registers its module exactly where its two versions are
/// the daemon's, it has an id, nothing that it claims is reserved to another, and its
/// connection holds no routes; else it is refused by the first of these. It registers
/// the manifest that it brought and may be asked for what it declared.
pub proof fn which_hello_registers(
    not_json: Option<String>,
    has_provenance: bool,
    facts: HelloFacts,
    r: HelloGate,
)
    requires
        call_ensures(parsed_hello_gate, (not_json, has_provenance, facts), r),
        not_json is None,
        facts.capability_grammar is Ok,
        facts.self_signals is Ok,
        !has_provenance || facts.provenance is Ok,
        facts.hello is Ok,
    ensures
        ({
            let hello = facts.hello->Ok_0;
            let id = hello.manifest.module_id@;
            let one_version = hello.protocol_ver == hello.manifest.protocol_ver;
            let named = one_version && trimmed(id).len() > 0;
            let spoken = named && hello.protocol_ver == 2;
            let own = spoken && facts.reserved is None;
            let free = own && facts.reserved_capability is None;
            &&& !one_version ==> hello_refused(
                r,
                "invalid_manifest"@,
                "HELLO protocol_ver "@ + decimal(hello.protocol_ver as nat)
                    + " does not match manifest protocol_ver "@ + decimal(
                    hello.manifest.protocol_ver as nat,
                ),
            )
            &&& one_version && trimmed(id).len() == 0 ==> hello_refused(
                r,
                "invalid_manifest"@,
                "manifest module_id must not be empty"@,
            )
            &&& named && hello.protocol_ver != 2 ==> hello_refused(
                r,
                "version_unsupported"@,
                "protocol_ver "@ + decimal(hello.protocol_ver as nat)
                    + " is unsupported; this daemon requires exactly "@ + decimal(2),
            )
            &&& spoken ==> (facts.reserved matches Some(ReservedHelloRejection::Exact { module_id })
                ==> hello_refused(
                r,
                "reserved_module"@,
                "module_id '"@ + module_id@
                    + "' is reserved; HELLO without a valid launch nonce is rejected"@,
            ))
            &&& spoken ==> (facts.reserved matches Some(
                ReservedHelloRejection::Prefix { prefix, owner_module_id },
            ) ==> hello_refused(
                r,
                "reserved_module"@,
                "module_id '"@ + id + "' matches reserved prefix '"@ + prefix@ + "' owned by '"@
                    + owner_module_id@ + "'; HELLO without the owner launch nonce is rejected"@,
            ))
            &&& own ==> (facts.reserved_capability matches Some(claim) ==> hello_refused(
                r,
                "reserved_capability"@,
                "capability '"@ + claim.capability@ + "' is reserved for module_id '"@
                    + claim.bound_module@ + "'; claimant '"@ + id + "' was refused"@,
            ))
            &&& free ==> (facts.has_client_routes matches Err(err) ==> r == HelloGate::Fault(
                RouterError::Forwarding(err),
            ))
            &&& free && facts.has_client_routes == Ok::<bool, ForwardingError>(true)
                ==> hello_refused(
                r,
                "invalid_hello"@,
                "connection has open client routes and cannot also register as a module"@,
            )
            &&& free && facts.has_client_routes == Ok::<bool, ForwardingError>(false) ==> (
            r matches HelloGate::Register { manifest, negotiated_ver, control_ops } && manifest@
                == hello.manifest@ && negotiated_ver == 2 && (hello.control_ops is None ==> texts(
                control_ops@,
            ) == effective_ops(None)) && (hello.control_ops matches Some(ops) ==> texts(
                control_ops@,
            ) == effective_ops(Some(texts(ops@)))))
        }),
{
}

/// A registry that refuses a module is answered by its reason; one that takes it leads
/// on to the forwarding table where there is one to enter.
pub proof fn what_follows_the_registry(
    outcome: Result<(), RegistryRefusal>,
    has_sink: bool,
    r: HelloNext,
    refusal: RegistryRefusal,
    answer: ErrorBody,
)
    requires
        call_ensures(hello_after_registry, (outcome, has_sink), r),
        call_ensures(hello_registry_refusal, (refusal,), answer),
    ensures
        outcome is Ok && has_sink ==> r is Connect,
        outcome is Ok && !has_sink ==> r is Accept,
        outcome matches Err(RegistryRefusal::DuplicateModuleId { module_id }) ==> (
        r matches HelloNext::Refuse(e) && tells(
            e,
            "duplicate_module_id"@,
            "module_id '"@ + module_id@ + "' is already registered; duplicate HELLO rejected"@,
        )),
        outcome matches Err(RegistryRefusal::PathHazardModuleId { text }) ==> (
        r matches HelloNext::Refuse(e) && tells(e, "invalid_module_id"@, text@)),
        outcome matches Err(RegistryRefusal::Other { text }) ==> (r matches HelloNext::Refuse(e)
            && tells(e, "registry_error"@, text@)),
        refusal matches RegistryRefusal::DuplicateModuleId { module_id } ==> tells(
            answer,
            "duplicate_module_id"@,
            "module_id '"@ + module_id@ + "' is already registered; duplicate HELLO rejected"@,
        ),
        refusal matches RegistryRefusal::PathHazardModuleId { text } ==> tells(
            answer,
            "invalid_module_id"@,
            text@,
        ),
        refusal matches RegistryRefusal::Other { text } ==> tells(
            answer,
            "registry_error"@,
            text@,
        ),
{
}

/// A module that the forwarding table does not take is taken out of the registry again,
/// and that is told to others where it had been in it.
pub proof fn what_follows_the_forwarding_table(
    outcome: Result<(), ForwardingFailure>,
    r: HelloNext,
    failure: ForwardingFailure,
    entries: Option<usize>,
    rollback: HelloRollback,
)
    requires
        call_ensures(hello_after_forwarding, (outcome,), r),
        call_ensures(hello_forwarding_refusal, (failure, entries), rollback),
    ensures
        outcome is Ok ==> r is Accept,
        outcome matches Err(failure) ==> r == HelloNext::Unregister(failure),
        rollback.notify_release <==> entries is Some && entries->0 > 0,
        rollback.answer.message@ == failure.text@,
        rollback.answer.detail is None,
        failure.error is NoModuleConnection || failure.error is ConnectionClosing
            ==> rollback.answer.code@ == "target_unavailable"@,
        failure.error is ModuleReloading ==> rollback.answer.code@ == "module_reloading"@,
        failure.error is Poisoned ==> rollback.answer.code@ == "forwarding_error"@,
        failure.error is ModuleRouteChannelExhausted ==> rollback.answer.code@ == "route_limit"@,
{
}

/// A module that is accepted is told the daemon's operations and capabilities, and of
/// its own store where the daemon keeps stores: one by its own id below the data home.
pub proof fn what_an_accepted_module_is_told(
    body: &[u8],
    manifest: &ModuleManifest,
    negotiated_ver: u8,
    storage: &Option<StorageConfig>,
    r: HelloAccepted,
)
    requires
        call_ensures(hello_accepted, (body, manifest, negotiated_ver, storage), r),
    ensures
        texts(r.ack.subc_ops@).contains("catalog.update"@),
        texts(r.ack.subc_ops@).contains("route.open"@),
        texts(r.ack.subc_capabilities@) == seq![
            "manifest_registration_v1"@,
            "channel_lifecycle_v1"@,
            "ping_pong_v1"@,
            "session_attach_v1"@,
            "admission_facts_relay_v1"@,
        ],
        storage is None ==> r.ack.storage is None,
        storage matches Some(StorageConfig::Sqlite { data_home }) ==> r.ack.storage is Some && {
            let told = r.ack.storage->0;
            &&& told.module_id@ == manifest.module_id@
            &&& told.storage_namespace@ == "default"@
            &&& told.isolation_kind@ == "module"@
            &&& told.backend@ == "sqlite"@
            &&& data_home@.len() > 0 && data_home@.last() != '/' ==> told.path@ == data_home@
                + "/cortexkit/"@ + manifest.module_id@ + "/store.db"@
        },
{
    let all = subc_op_names() + module_to_subc_op_names();
    assert(all[2] == "route.open"@);
    assert(all[subc_op_names().len() as int] == "catalog.update"@);
}

/// A role of the raw body is silent on its lane exactly where it is a management
/// surface that names none.
pub proof fn which_surface_is_silent(role: Option<&str>, has_concurrency: bool, r: bool)
    requires
        call_ensures(is_silent_surface, (role, has_concurrency), r),
    ensures
        r <==> role is Some && role->0@ == "management_surface"@ && !has_concurrency,
{
}

/// What a module is told of the daemon's operations is what every module is told.
pub proof fn every_module_is_told_the_same_operations(
    body: &[u8],
    manifest: &ModuleManifest,
    negotiated_ver: u8,
    storage: &Option<StorageConfig>,
    r: HelloAccepted,
    told: Vec<String>,
    named: Vec<String>,
)
    requires
        call_ensures(hello_accepted, (body, manifest, negotiated_ver, storage), r),
        call_ensures(module_subc_ops, (), told),
        call_ensures(subc_capabilities, (), named),
    ensures
        texts(r.ack.subc_ops@) == texts(told@),
        texts(r.ack.subc_capabilities@) == texts(named@),
{
}

} // verus!
