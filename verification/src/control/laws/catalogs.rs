//! What holds of every change and every listing of the catalog.
use crate::control::answers::{faults, tells};
use crate::control::breaker::OpenBreaker;
use crate::control::catalog::{
    catalog_list, catalog_update_step, catalog_updated, server_describe, wanted_modules,
    CatalogEntry, CatalogList, CatalogUpdateStep, CatalogUpdated, ListedModule, ServerDescribe,
};
use crate::control::fault::RouterError;
use crate::control::laws::hellos::{has_lane, same_lane};
use crate::control::manifest::{
    kind_of, lane_of, provider_role_kind_set, role_kinds, role_views, target_has_required_role,
    CapabilityDeclarations, Concurrency, ModuleManifest, ProviderRole, ProviderRoleKind,
    RoleKindSet, RouteTarget,
};
use crate::control::ops::{subc_op_names, subc_ops};
use crate::text::texts;
use vstd::prelude::*;

verus! {

/// The step is a refusal of this code and message.
pub open spec fn update_refused(
    step: CatalogUpdateStep,
    code: Seq<char>,
    message: Seq<char>,
) -> bool {
    step matches CatalogUpdateStep::Refused(e) && tells(e, code, message)
}

/// Some role is of a kind.
pub open spec fn has_kind(roles: Seq<ProviderRole>, kind: ProviderRoleKind) -> bool {
    exists|i: int|
        0 <= i < roles.len() && match kind {
            ProviderRoleKind::ToolProvider => (#[trigger] roles[i]) is ToolProvider,
            ProviderRoleKind::PipelineStage => roles[i] is PipelineStage,
            ProviderRoleKind::ManagementSurface => roles[i] is ManagementSurface,
            ProviderRoleKind::InternalService => roles[i] is InternalService,
        }
}

proof fn a_kind_is_there_where_a_role_has_it(roles: Seq<ProviderRole>, kind: ProviderRoleKind)
    ensures
        role_kinds(role_views(roles)).contains(kind) <==> has_kind(roles, kind),
{
    let views = role_views(roles);
    if role_kinds(views).contains(kind) {
        let i = choose|i: int| 0 <= i < views.len() && kind_of(#[trigger] views[i]) == kind;
        assert(views[i] == roles[i]@);
        let _ = roles[i];
    }
    if has_kind(roles, kind) {
        let i = choose|i: int|
            0 <= i < roles.len() && match kind {
                ProviderRoleKind::ToolProvider => (#[trigger] roles[i]) is ToolProvider,
                ProviderRoleKind::PipelineStage => roles[i] is PipelineStage,
                ProviderRoleKind::ManagementSurface => roles[i] is ManagementSurface,
                ProviderRoleKind::InternalService => roles[i] is InternalService,
            };
        assert(views[i] == roles[i]@);
        assert(kind_of(views[i]) == kind);
    }
}

/// The set of kinds says of each kind whether some role is of it.
pub proof fn the_kinds_are_those_of_the_roles(roles: &Vec<ProviderRole>, r: RoleKindSet)
    requires
        call_ensures(provider_role_kind_set, (roles,), r),
    ensures
        r.tool_provider <==> has_kind(roles@, ProviderRoleKind::ToolProvider),
        r.pipeline_stage <==> has_kind(roles@, ProviderRoleKind::PipelineStage),
        r.management_surface <==> has_kind(roles@, ProviderRoleKind::ManagementSurface),
        r.internal_service <==> has_kind(roles@, ProviderRoleKind::InternalService),
{
    a_kind_is_there_where_a_role_has_it(roles@, ProviderRoleKind::ToolProvider);
    a_kind_is_there_where_a_role_has_it(roles@, ProviderRoleKind::PipelineStage);
    a_kind_is_there_where_a_role_has_it(roles@, ProviderRoleKind::ManagementSurface);
    a_kind_is_there_where_a_role_has_it(roles@, ProviderRoleKind::InternalService);
    assert(r@.contains(ProviderRoleKind::ToolProvider) <==> r.tool_provider);
    assert(r@.contains(ProviderRoleKind::PipelineStage) <==> r.pipeline_stage);
    assert(r@.contains(ProviderRoleKind::ManagementSurface) <==> r.management_surface);
    assert(r@.contains(ProviderRoleKind::InternalService) <==> r.internal_service);
}

/// An update that could be read is refused where nobody is registered, where it would
/// make a routable module of a supervised one or the other way round, and where it adds
/// or drops a kind of role; a wrong grammar is refused after that.
pub proof fn what_an_update_may_not_change(
    registered: &Result<Option<ModuleManifest>, String>,
    provides: &Vec<ProviderRole>,
    new_capabilities: bool,
    grammar_error: Option<String>,
    corr: u64,
    r: CatalogUpdateStep,
    kind: ProviderRoleKind,
)
    requires
        call_ensures(
            catalog_update_step,
            (registered, provides, new_capabilities, grammar_error, corr),
            r,
        ),
    ensures
        registered matches Err(text) ==> (r matches CatalogUpdateStep::Fault(fault) && faults(
            fault,
            corr,
            text@,
        )),
        registered matches Ok(None) ==> update_refused(
            r,
            "not_registered"@,
            "catalog.update requires an active module registration owned by this connection"@,
        ),
        registered matches Ok(Some(m)) ==> {
            let id = m.module_id@;
            let flips = (m.provides@.len() > 0) != (provides@.len() > 0);
            &&& flips ==> update_refused(
                r,
                "catalog_update_frozen_field"@,
                "catalog.update cannot change module '"@ + id
                    + "' between supervision-only and routable; routability is fixed at HELLO"@,
            )
            &&& !flips && (has_kind(m.provides@, kind) != has_kind(provides@, kind))
                ==> update_refused(
                r,
                "catalog_update_frozen_field"@,
                "catalog.update cannot change provider role kinds for module '"@ + id
                    + "'; role kinds are fixed at HELLO"@,
            )
            &&& r is Replace ==> grammar_error is None && r->keeps_capabilities
                == !new_capabilities
            &&& r matches CatalogUpdateStep::Refused(e) ==> (e.code@
                == "invalid_capability_grammar"@ ==> grammar_error is Some && e.message@
                == grammar_error->0@)
        },
{
    if registered is Ok && registered->Ok_0 is Some {
        let m = registered->Ok_0->0;
        a_kind_is_there_where_a_role_has_it(m.provides@, kind);
        a_kind_is_there_where_a_role_has_it(provides@, kind);
        assert(m@.provides.len() == m.provides@.len());
        assert(role_views(provides@).len() == provides@.len());
        reveal_strlit("invalid_capability_grammar");
        reveal_strlit("catalog_update_frozen_field");
        assert("invalid_capability_grammar"@[0] != "catalog_update_frozen_field"@[0]);
    }
}

/// The lane that a role declares, where it declares one.
pub open spec fn lane(role: ProviderRole) -> Concurrency {
    match role {
        ProviderRole::ToolProvider { concurrency } => concurrency,
        ProviderRole::ManagementSurface { concurrency } => concurrency,
        _ => Concurrency::ModuleManaged,
    }
}

/// The `i`-th role is the first that has a lane.
pub open spec fn first_lane(roles: Seq<ProviderRole>, i: int) -> bool {
    &&& 0 <= i < roles.len()
    &&& has_lane(roles[i])
    &&& forall|k: int| 0 <= k < i ==> !has_lane(#[trigger] roles[k])
}

proof fn the_first_lane_is_taken(roles: Seq<ProviderRole>, i: int)
    requires
        first_lane(roles, i),
    ensures
        lane_of(role_views(roles)) == lane(roles[i])@,
    decreases roles.len(),
{
    assert(role_views(roles)[0] == roles[0]@);
    if i > 0 {
        let rest = roles.drop_first();
        assert(role_views(roles).drop_first() =~= role_views(rest));
        assert(rest[i - 1] == roles[i]);
        assert forall|k: int| 0 <= k < i - 1 implies !has_lane(#[trigger] rest[k]) by {
            assert(rest[k] == roles[k + 1]);
        }
        assert(!has_lane(roles[0]));
        the_first_lane_is_taken(rest, i - 1);
    }
}

/// An update of the same kinds of roles is taken exactly where its first lane is the
/// registered one and its grammar is right; another lane is refused by both names.
pub proof fn an_update_stays_in_its_lane(
    m: ModuleManifest,
    provides: &Vec<ProviderRole>,
    new_capabilities: bool,
    grammar_error: Option<String>,
    corr: u64,
    r: CatalogUpdateStep,
    i: int,
    j: int,
)
    requires
        call_ensures(
            catalog_update_step,
            (&Ok(Some(m)), provides, new_capabilities, grammar_error, corr),
            r,
        ),
        forall|kind: ProviderRoleKind|
            #![trigger has_kind(provides@, kind)]
            has_kind(m.provides@, kind) == has_kind(provides@, kind),
        first_lane(m.provides@, i),
        first_lane(provides@, j),
    ensures
        ({
            let was = lane(m.provides@[i]);
            let now = lane(provides@[j]);
            &&& same_lane(was, now) && grammar_error is None ==> r == (CatalogUpdateStep::Replace {
                keeps_capabilities: !new_capabilities,
            })
            &&& same_lane(was, now) ==> (grammar_error matches Some(text) ==> update_refused(
                r,
                "invalid_capability_grammar"@,
                text@,
            ))
            &&& was matches Concurrency::Lane(a) ==> (now matches Concurrency::Lane(b) ==> (a@
                != b@ ==> update_refused(
                r,
                "catalog_update_frozen_field"@,
                "catalog.update cannot change module '"@ + m.module_id@ + "' concurrency from "@
                    + a@ + " to "@ + b@ + "; concurrency is fixed at HELLO"@,
            )))
            &&& was is ModuleManaged ==> (now matches Concurrency::Lane(b) ==> update_refused(
                r,
                "catalog_update_frozen_field"@,
                "catalog.update cannot change module '"@ + m.module_id@ + "' concurrency from "@
                    + "ModuleManaged"@ + " to "@ + b@ + "; concurrency is fixed at HELLO"@,
            ))
        }),
{
    the_first_lane_is_taken(m.provides@, i);
    the_first_lane_is_taken(provides@, j);
    assert(m@.provides.len() == m.provides@.len());
    assert(role_views(provides@).len() == provides@.len());
    assert forall|kind: ProviderRoleKind| #[trigger]
        role_kinds(m@.provides).contains(kind) == role_kinds(role_views(provides@)).contains(
            kind,
        ) by {
        a_kind_is_there_where_a_role_has_it(m.provides@, kind);
        a_kind_is_there_where_a_role_has_it(provides@, kind);
        let _ = has_kind(provides@, kind);
    }
    assert(role_kinds(m@.provides) =~= role_kinds(role_views(provides@)));
}

/// An update that leaves the roles as they are is taken where its grammar is right, and
/// keeps the capabilities that it does not give.
pub proof fn an_update_of_the_same_roles_is_taken(
    m: ModuleManifest,
    provides: &Vec<ProviderRole>,
    new_capabilities: bool,
    grammar_error: Option<String>,
    corr: u64,
    r: CatalogUpdateStep,
)
    requires
        call_ensures(
            catalog_update_step,
            (&Ok(Some(m)), provides, new_capabilities, grammar_error, corr),
            r,
        ),
        m.provides@ == provides@,
    ensures
        grammar_error is None ==> r == (CatalogUpdateStep::Replace {
            keeps_capabilities: !new_capabilities,
        }),
        grammar_error matches Some(text) ==> update_refused(
            r,
            "invalid_capability_grammar"@,
            text@,
        ),
{
}

/// A new declaration of capabilities calls for a census exactly where it claims or
/// denies one that the old one did not.
pub proof fn a_new_capability_calls_for_a_census(
    old: &Option<CapabilityDeclarations>,
    updated: Result<Option<Option<CapabilityDeclarations>>, String>,
    corr: u64,
    r: CatalogUpdated,
    i: int,
)
    requires
        call_ensures(catalog_updated, (old, updated, corr), r),
    ensures
        updated matches Err(text) ==> (r matches CatalogUpdated::Fault(fault) && faults(
            fault,
            corr,
            text@,
        )),
        updated matches Ok(None) ==> (r matches CatalogUpdated::Refused(e) && tells(
            e,
            "not_registered"@,
            "catalog.update requires an active module registration owned by this connection"@,
        )),
        updated matches Ok(Some(None)) ==> r == (CatalogUpdated::Done { census: false }),
        updated matches Ok(Some(Some(new))) ==> r is Done && {
            &&& 0 <= i < new.provides@.len() && (old matches Some(was) ==> !texts(
                was.provides@,
            ).contains(new.provides@[i]@)) ==> r->census
            &&& 0 <= i < new.must_never_reach@.len() && (old matches Some(was) ==> !texts(
                was.must_never_reach@,
            ).contains(new.must_never_reach@[i]@)) ==> r->census
            &&& old matches Some(was) ==> (r->census && (forall|k: int|
                0 <= k < new.provides@.len() ==> texts(was.provides@).contains(
                    (#[trigger] new.provides@[k])@,
                )) ==> exists|k: int|
                0 <= k < new.must_never_reach@.len() && !texts(was.must_never_reach@).contains(
                    (#[trigger] new.must_never_reach@[k])@,
                ))
        },
{
    if updated is Ok && updated->Ok_0 is Some && updated->Ok_0->0 is Some {
        let new = updated->Ok_0->0->0;
        let now = new@;
        if 0 <= i < new.provides@.len() {
            assert(now.provides[i] == new.provides@[i]@);
        }
        if 0 <= i < new.must_never_reach@.len() {
            assert(now.must_never_reach[i] == new.must_never_reach@[i]@);
        }
        if old is Some && r->census && (forall|k: int|
            0 <= k < new.provides@.len() ==> texts(old->0.provides@).contains(
                (#[trigger] new.provides@[k])@,
            )) {
            let was = old->0@;
            assert forall|k: int| 0 <= k < now.provides.len() implies was.provides.contains(
                #[trigger] now.provides[k],
            ) by {
                assert(now.provides[k] == new.provides@[k]@);
            }
            assert(!crate::control::manifest::adds(was.provides, now.provides));
            let k = choose|k: int|
                0 <= k < now.must_never_reach.len() && !was.must_never_reach.contains(
                    #[trigger] now.must_never_reach[k],
                );
            assert(now.must_never_reach[k] == new.must_never_reach@[k]@);
        }
    }
}

/// The entry tells of the module what was listed of it.
pub open spec fn lists_module<R, C, S>(
    entry: CatalogEntry<R, C, S>,
    m: ListedModule<R, C, S>,
) -> bool {
    &&& entry.module_id == m.module_id
    &&& entry.ready == m.ready
    &&& entry.module_version == Some(m.module_version)
    &&& entry.roles == m.roles
    &&& entry.control_ops == m.control_ops
    &&& entry.capabilities == m.capabilities
    &&& entry.self_signals == m.self_signals
}

proof fn all_are_listed_where_none_is_named<R, C, S>(modules: Seq<ListedModule<R, C, S>>)
    ensures
        wanted_modules(modules, None).len() == modules.len(),
        forall|i: int|
            0 <= i < modules.len() ==> lists_module(
                #[trigger] wanted_modules(modules, None)[i],
                modules[i],
            ),
    decreases modules.len(),
{
    if modules.len() > 0 {
        let before = modules.drop_last();
        all_are_listed_where_none_is_named(before);
        assert forall|i: int| 0 <= i < modules.len() implies lists_module(
            #[trigger] wanted_modules(modules, None)[i],
            modules[i],
        ) by {
            if i < before.len() {
                assert(wanted_modules(modules, None)[i] == wanted_modules(before, None)[i]);
                assert(before[i] == modules[i]);
            }
        }
    }
}

proof fn only_the_named_is_listed<R, C, S>(
    modules: Seq<ListedModule<R, C, S>>,
    id: Seq<char>,
    k: int,
    i: int,
)
    ensures
        0 <= k < wanted_modules(modules, Some(id)).len() ==> exists|j: int|
            0 <= j < modules.len() && (#[trigger] modules[j]).module_id@ == id && lists_module(
                wanted_modules(modules, Some(id))[k],
                modules[j],
            ),
        0 <= i < modules.len() && modules[i].module_id@ == id ==> exists|n: int|
            0 <= n < wanted_modules(modules, Some(id)).len() && lists_module(
                #[trigger] wanted_modules(modules, Some(id))[n],
                modules[i],
            ),
    decreases modules.len(),
{
    if modules.len() > 0 {
        let before = modules.drop_last();
        let last = modules.len() - 1;
        let all = wanted_modules(modules, Some(id));
        let was = wanted_modules(before, Some(id));
        only_the_named_is_listed(before, id, k, i);
        if 0 <= k < was.len() {
            let j = choose|j: int|
                0 <= j < before.len() && (#[trigger] before[j]).module_id@ == id && lists_module(
                    was[k],
                    before[j],
                );
            assert(modules[j] == before[j]);
            assert(all[k] == was[k]);
            assert(modules[j].module_id@ == id && lists_module(all[k], modules[j]));
        } else if k == was.len() && k < all.len() {
            assert(modules[last].module_id@ == id && lists_module(all[k], modules[last]));
        }
        if 0 <= i < modules.len() && modules[i].module_id@ == id {
            if i < last {
                assert(before[i] == modules[i]);
                let n = choose|n: int|
                    0 <= n < was.len() && lists_module(#[trigger] was[n], before[i]);
                assert(all[n] == was[n]);
                assert(lists_module(all[n], modules[i]));
            } else {
                assert(lists_module(all[was.len() as int], modules[i]));
            }
        }
    }
}

/// `catalog.list` tells of every module that is registered, in order and as it is
/// listed, or of those of the id that was asked for and of no other.
pub proof fn the_catalog_lists_what_is_registered<R, C, S>(
    listed: Result<(u64, Vec<ListedModule<R, C, S>>), String>,
    module_id: Option<&str>,
    corr: u64,
    r: Result<CatalogList<R, C, S>, RouterError>,
    i: int,
    k: int,
)
    requires
        call_ensures(catalog_list::<R, C, S>, (listed, module_id, corr), r),
    ensures
        listed matches Err(text) ==> r is Err && faults(
            r->Err_0,
            corr,
            "registry error: "@ + text@,
        ),
        listed matches Ok((generation, modules)) ==> r is Ok && r->Ok_0.generation == generation
            && texts(r->Ok_0.subc_ops@).contains("catalog.list"@) && {
            let told = r->Ok_0.modules@;
            &&& module_id is None ==> told.len() == modules@.len() && (0 <= i < told.len()
                ==> lists_module(told[i], modules@[i]))
            &&& module_id matches Some(id) ==> (0 <= k < told.len() ==> told[k].module_id@ == id@
                && exists|j: int|
                0 <= j < modules@.len() && lists_module(told[k], #[trigger] modules@[j]))
            &&& module_id matches Some(id) ==> (0 <= i < modules@.len() && modules@[i].module_id@
                == id@ ==> exists|n: int|
                0 <= n < told.len() && lists_module(#[trigger] told[n], modules@[i]))
        },
{
    if listed is Ok {
        let modules = listed->Ok_0.1@;
        assert(subc_op_names()[1] == "catalog.list"@);
        assert(subc_op_names().contains("catalog.list"@));
        if module_id is Some {
            only_the_named_is_listed(modules, module_id->0@, k, i);
        } else {
            all_are_listed_where_none_is_named(modules);
            if 0 <= i < modules.len() {
                let _ = wanted_modules(modules, None)[i];
            }
        }
    }
}

/// `server.describe` tells what the daemon has, each figure in its place; figures of
/// the routes that could not be had are left out.
pub proof fn the_server_describes_itself<N, Q>(
    capabilities: &Vec<String>,
    connected_clients: usize,
    counters: N,
    route_concentration: Result<(usize, usize), String>,
    open_breakers: Option<Vec<OpenBreaker>>,
    build_git_sha: &str,
    build_lock_digest: &str,
    capability_requirements: Vec<Q>,
    r: ServerDescribe<N, Q>,
)
    requires
        call_ensures(
            server_describe::<N, Q>,
            (
                capabilities,
                connected_clients,
                counters,
                route_concentration,
                open_breakers,
                build_git_sha,
                build_lock_digest,
                capability_requirements,
            ),
            r,
        ),
    ensures
        r.protocol_ver == 2,
        texts(r.subc_ops@).contains("server.describe"@),
        texts(r.capabilities@) == texts(capabilities@),
        r.connected_clients == connected_clients,
        r.counters == counters,
        route_concentration matches Ok(figures) ==> r.route_concentration == Some(figures),
        route_concentration is Err ==> r.route_concentration is None,
        r.route_bind_breakers_open == open_breakers,
        r.build_git_sha@ == build_git_sha@,
        r.build_lock_digest@ == build_lock_digest@,
        r.capability_requirements == capability_requirements,
{
    assert(subc_op_names()[0] == "server.describe"@);
}

/// A target is served where some role is of its kind, and an internal service where
/// one is of its name.
pub proof fn a_target_needs_a_role_of_its_kind(
    target: &RouteTarget,
    roles: &Vec<ProviderRole>,
    r: bool,
)
    requires
        call_ensures(target_has_required_role, (target, roles), r),
    ensures
        target is ToolProvider ==> (r <==> has_kind(roles@, ProviderRoleKind::ToolProvider)),
        target is ManagementSurface ==> (r <==> has_kind(
            roles@,
            ProviderRoleKind::ManagementSurface,
        )),
        target matches RouteTarget::InternalService { service_id, .. } ==> (r <==> exists|i: int|
            0 <= i < roles@.len() && (
            #[trigger] roles@[i] matches ProviderRole::InternalService { service_id: provided }
                && provided@ == service_id@)),
{
    let views = role_views(roles@);
    if r {
        let i = choose|i: int| 0 <= i < views.len() && target@.served_by(#[trigger] views[i]);
        assert(views[i] == roles@[i]@);
        let _ = roles@[i];
    }
    if target is ToolProvider && has_kind(roles@, ProviderRoleKind::ToolProvider) {
        let i = choose|i: int| 0 <= i < roles@.len() && (#[trigger] roles@[i]) is ToolProvider;
        assert(views[i] == roles@[i]@);
        assert(target@.served_by(views[i]));
    }
    if target is ManagementSurface && has_kind(roles@, ProviderRoleKind::ManagementSurface) {
        let i = choose|i: int|
            0 <= i < roles@.len() && (#[trigger] roles@[i]) is ManagementSurface;
        assert(views[i] == roles@[i]@);
        assert(target@.served_by(views[i]));
    }
    if target is InternalService {
        let wanted = target->InternalService_service_id;
        if exists|i: int|
            0 <= i < roles@.len() && (
            #[trigger] roles@[i] matches ProviderRole::InternalService { service_id: provided }
                && provided@ == wanted@) {
            let i = choose|i: int|
                0 <= i < roles@.len() && (
                #[trigger] roles@[i] matches ProviderRole::InternalService { service_id: provided }
                    && provided@ == wanted@);
            assert(views[i] == roles@[i]@);
            assert(target@.served_by(views[i]));
        }
    }
}

proof fn without_a_lane_the_module_manages(roles: Seq<ProviderRole>)
    requires
        forall|k: int| 0 <= k < roles.len() ==> !has_lane(#[trigger] roles[k]),
    ensures
        lane_of(role_views(roles)) is ModuleManaged,
    decreases roles.len(),
{
    if roles.len() > 0 {
        let rest = roles.drop_first();
        assert(role_views(roles)[0] == roles[0]@);
        assert(role_views(roles).drop_first() =~= role_views(rest));
        assert(!has_lane(roles[0]));
        assert forall|k: int| 0 <= k < rest.len() implies !has_lane(#[trigger] rest[k]) by {
            assert(rest[k] == roles[k + 1]);
        }
        without_a_lane_the_module_manages(rest);
    }
}

/// An update of the same kinds of roles, none of which has a lane, is taken where its
/// grammar is right.
pub proof fn an_update_without_lanes_is_taken(
    m: ModuleManifest,
    provides: &Vec<ProviderRole>,
    new_capabilities: bool,
    corr: u64,
    r: CatalogUpdateStep,
)
    requires
        call_ensures(
            catalog_update_step,
            (&Ok(Some(m)), provides, new_capabilities, None, corr),
            r,
        ),
        (m.provides@.len() > 0) == (provides@.len() > 0),
        forall|kind: ProviderRoleKind|
            #![trigger has_kind(provides@, kind)]
            has_kind(m.provides@, kind) == has_kind(provides@, kind),
        forall|k: int| 0 <= k < m.provides@.len() ==> !has_lane(#[trigger] m.provides@[k]),
        forall|k: int| 0 <= k < provides@.len() ==> !has_lane(#[trigger] provides@[k]),
    ensures
        r == (CatalogUpdateStep::Replace { keeps_capabilities: !new_capabilities }),
{
    without_a_lane_the_module_manages(m.provides@);
    without_a_lane_the_module_manages(provides@);
    assert(m@.provides.len() == m.provides@.len());
    assert(role_views(provides@).len() == provides@.len());
    assert forall|kind: ProviderRoleKind| #[trigger]
        role_kinds(m@.provides).contains(kind) == role_kinds(role_views(provides@)).contains(
            kind,
        ) by {
        a_kind_is_there_where_a_role_has_it(m.provides@, kind);
        a_kind_is_there_where_a_role_has_it(provides@, kind);
        let _ = has_kind(provides@, kind);
    }
    assert(role_kinds(m@.provides) =~= role_kinds(role_views(provides@)));
}

/// The catalog and the server's description name the operations that the daemon serves.
pub proof fn both_listings_name_what_is_served<R, C, S, N, Q>(
    listed: Result<(u64, Vec<ListedModule<R, C, S>>), String>,
    module_id: Option<&str>,
    corr: u64,
    list: Result<CatalogList<R, C, S>, RouterError>,
    capabilities: &Vec<String>,
    connected_clients: usize,
    counters: N,
    route_concentration: Result<(usize, usize), String>,
    open_breakers: Option<Vec<OpenBreaker>>,
    build_git_sha: &str,
    build_lock_digest: &str,
    capability_requirements: Vec<Q>,
    description: ServerDescribe<N, Q>,
    served: Vec<String>,
)
    requires
        call_ensures(catalog_list::<R, C, S>, (listed, module_id, corr), list),
        call_ensures(
            server_describe::<N, Q>,
            (
                capabilities,
                connected_clients,
                counters,
                route_concentration,
                open_breakers,
                build_git_sha,
                build_lock_digest,
                capability_requirements,
            ),
            description,
        ),
        call_ensures(subc_ops, (), served),
    ensures
        list is Ok ==> texts(list->Ok_0.subc_ops@) == texts(served@),
        texts(description.subc_ops@) == texts(served@),
{
}

} // verus!
