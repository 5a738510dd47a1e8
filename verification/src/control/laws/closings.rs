//! What holds of every route that is counted or cut, and of every connection that ends.
use crate::control::answers::faults;
use crate::control::census::{
    supervisor_routes, ModuleRoutes, SupervisorRouteConsumer, SupervisorRouteModule,
};
use crate::control::deny::{
    a_route_is_cut_exactly_when_it_is_forbidden, census_of, census_views, denied_notice,
    denied_views, enforce_capability_denies, forbidden, forbidden_routes, registration_at,
    CensusRoute, CensusTarget, DeniedRoute, RegisteredCapabilities,
};
use crate::control::fault::{ForwardingError, RouterError};
use crate::control::manifest::{denied_iff_lists_meet, CapabilityDeclarations};
use crate::control::pushes::{
    as_ints, cleanup_end, connections_of, counts_failed_client, crash_notice,
    each_connection_is_pushed_to_once, firsts, goodbye_end, push_header, push_targets,
    route_goodbye_target, seen_before, target_goodbye, undelivered_goodbye, undelivered_push,
    CleanupEnd, CloseReason, GoodbyeTarget, Recovery, RouteCloseReason, RouteClosed, RouteRelease,
    UndeliveredGoodbye,
};
use crate::control::route_open::Principal;
use crate::control::wire::{FrameFlags, FrameHeader, FrameType};
use crate::text::{decimal, texts};
use vstd::prelude::*;

verus! {

/// A module that crashed is told of to its clients, as final exactly where it is known
/// not to come back.
pub proof fn a_crash_is_told_as_final_only_where_it_is(
    module_id: Option<&str>,
    recovery: &Recovery,
    r: Option<RouteClosed>,
)
    requires
        call_ensures(crash_notice, (module_id, recovery), r),
    ensures
        module_id is None ==> r is None,
        module_id matches Some(id) ==> r is Some && r->0.module_id@ == id@ && r->0.reason
            == RouteCloseReason::Crash && !r->0.drained && r->0.abandoned == 0
            && r->0.excluded_subscriptions == 0,
        module_id is Some ==> (*recovery matches Recovery::WillRecover(will) ==> r->0.terminal
            == Some(!will)),
        module_id is Some && (recovery is NotSupervised || recovery is Unreadable)
            ==> r->0.terminal == Some(false),
{
}

/// Routes that were cut for a denied capability are told of once there are any, and
/// never as final.
pub proof fn cut_routes_are_told_of(module_id: &str, removed: usize, r: Option<RouteClosed>)
    requires
        call_ensures(denied_notice, (module_id, removed), r),
    ensures
        removed == 0 ==> r is None,
        removed > 0 ==> r is Some && r->0.module_id@ == module_id@ && r->0.reason
            == RouteCloseReason::CapabilityDenied && r->0.terminal == Some(false) && !r->0.drained
            && r->0.abandoned == 0 && r->0.excluded_subscriptions == 0,
{
}

/// Every connection among the targets is pushed to, through the first target that it
/// has, and none twice.
pub proof fn each_connection_gets_one_push(
    targets: &Vec<GoodbyeTarget>,
    r: Vec<usize>,
    i: int,
    k: int,
    l: int,
)
    requires
        call_ensures(push_targets, (targets,), r),
        0 <= i < targets@.len(),
    ensures
        exists|n: int|
            0 <= n < r@.len() && targets@[(#[trigger] r@[n]) as int].connection_id
                == targets@[i].connection_id,
        0 <= k < r@.len() ==> 0 <= r@[k] < targets@.len(),
        0 <= k < l < r@.len() ==> targets@[r@[k] as int].connection_id
            != targets@[r@[l] as int].connection_id,
{
    let connections = connections_of(targets@);
    let places = firsts(connections);
    each_connection_is_pushed_to_once(connections, i);
    assert(as_ints(r@).len() == r@.len());
    assert forall|n: int| 0 <= n < r@.len() implies places[n] == (#[trigger] r@[n]) as int by {
        assert(as_ints(r@)[n] == r@[n] as int);
    }
    assert forall|n: int| 0 <= n < targets@.len() implies connections[n]
        == (#[trigger] targets@[n]).connection_id by {}
    let n = choose|n: int|
        0 <= n < places.len() && connections[#[trigger] places[n]] == connections[i];
    assert(places[n] == r@[n] as int);
    assert(targets@[r@[n] as int].connection_id == targets@[i].connection_id);
    if 0 <= k < r@.len() {
        assert(places[k] == r@[k] as int);
    }
    if 0 <= k < l < r@.len() {
        assert(places[k] == r@[k] as int && places[l] == r@[l] as int);
    }
}

/// A push stands on channel 0 in the version that was negotiated.
pub proof fn a_push_stands_on_the_control_channel(negotiated_ver: u8, r: FrameHeader)
    requires
        call_ensures(push_header, (negotiated_ver,), r),
    ensures
        r.ver == negotiated_ver,
        r.ty == FrameType::Push,
        r.flags == FrameFlags::Control,
        r.channel == 0,
        r.epoch == 0,
        r.corr == 0,
{
}

/// A GOODBYE stands on the channel and the epoch of its target.
pub proof fn a_goodbye_stands_on_its_targets_channel(target: &GoodbyeTarget, r: FrameHeader)
    requires
        call_ensures(target_goodbye, (target,), r),
    ensures
        r.ver == target.negotiated_ver,
        r.ty == FrameType::Goodbye,
        r.flags == FrameFlags::Control,
        r.channel == target.channel,
        r.epoch == target.epoch,
        r.corr == 0,
{
}

/// What could not be delivered closes the connection exactly where the target asks for
/// that; a GOODBYE is counted as dropped otherwise.
pub proof fn what_is_undelivered_closes_where_it_should(
    target: &GoodbyeTarget,
    error: &str,
    push: Option<CloseReason>,
    goodbye: UndeliveredGoodbye,
)
    requires
        call_ensures(undelivered_push, (target, error), push),
        call_ensures(undelivered_goodbye, (target, error), goodbye),
    ensures
        !target.close_on_delivery_failure ==> push is None,
        target.close_on_delivery_failure ==> push is Some && push->0.code@
            == "route_lifecycle_push_delivery_failed"@ && push->0.message@
            == "failed to enqueue route lifecycle control PUSH for channel "@ + decimal(
            target.channel as nat,
        ) + ": "@ + error@,
        target.close_on_delivery_failure ==> (goodbye matches UndeliveredGoodbye::Close(reason)
            && reason.code@ == "route_goodbye_delivery_failed"@ && reason.message@
            == "failed to enqueue route GOODBYE for channel "@ + decimal(target.channel as nat)
            + ": "@ + error@),
        !target.close_on_delivery_failure ==> (goodbye matches UndeliveredGoodbye::CountDropped {
            module_id,
        } && (module_id is Some <==> target.module_id is Some) && (module_id matches Some(id)
            ==> id@ == target.module_id->0@)),
{
}

/// A client counts as failed exactly where its closing was carried through.
pub proof fn when_a_client_counts_as_failed(escalated: Option<bool>, r: bool)
    requires
        call_ensures(counts_failed_client, (escalated,), r),
    ensures
        r <==> escalated == Some(true),
{
}

/// After a connection is gone its routes get GOODBYEs where the table was cleared, and
/// its registrations are released where it had any.
pub proof fn what_a_gone_connection_leaves(
    registrations: Option<usize>,
    forwarding_cleared: bool,
    r: CleanupEnd,
)
    requires
        call_ensures(cleanup_end, (registrations, forwarding_cleared), r),
    ensures
        r.goodbyes == forwarding_cleared,
        registrations is None ==> !r.release,
        registrations matches Some(n) ==> (r.release <==> n > 0),
{
}

/// A GOODBYE of a peer releases its registrations where it had any; a failure of the
/// registry goes before one of the table.
pub proof fn what_a_peers_goodbye_releases(
    registrations: Result<usize, String>,
    forwarding: Result<(), ForwardingError>,
    r: Result<bool, RouterError>,
)
    requires
        call_ensures(goodbye_end, (registrations, forwarding), r),
    ensures
        registrations matches Err(text) ==> r is Err && faults(r->Err_0, 0, text@),
        registrations is Ok ==> (forwarding matches Err(e) ==> r == Err::<bool, _>(
            RouterError::Forwarding(e),
        )),
        forwarding is Ok ==> (registrations matches Ok(n) ==> r == Ok::<bool, RouterError>(n > 0)),
{
}

/// A route that was removed is told goodbye; one that is stale or absent is not.
pub proof fn only_a_removed_route_is_told_goodbye(
    release: Result<RouteRelease, ForwardingError>,
    r: Result<Option<GoodbyeTarget>, RouterError>,
)
    requires
        call_ensures(route_goodbye_target, (release,), r),
    ensures
        release matches Ok(RouteRelease::Removed(target)) ==> r == Ok::<_, RouterError>(
            Some(target),
        ),
        release matches Ok(RouteRelease::Stale) ==> r == Ok::<Option<GoodbyeTarget>, RouterError>(
            None,
        ),
        release matches Ok(RouteRelease::Absent) ==> r == Ok::<Option<GoodbyeTarget>, RouterError>(
            None,
        ),
        release matches Err(e) ==> r == Err::<Option<GoodbyeTarget>, _>(
            RouterError::Forwarding(e),
        ),
{
}

/// `supervisor.routes` tells of every module each of its routes: a reserved caller by
/// its id and any other by its connection, its age in whole milliseconds, and whether
/// and why it drains.
pub proof fn the_census_tells_of_each_route<D>(
    census: Result<Vec<ModuleRoutes<D>>, ForwardingError>,
    r: Result<Vec<SupervisorRouteModule<D>>, RouterError>,
    m: int,
    i: int,
)
    requires
        call_ensures(supervisor_routes::<D>, (census,), r),
    ensures
        census matches Err(e) ==> r == Err::<Vec<SupervisorRouteModule<D>>, _>(
            RouterError::Forwarding(e),
        ),
        census matches Ok(modules) ==> r is Ok && r->Ok_0@.len() == modules@.len() && (0 <= m
            < modules@.len() ==> {
            let told = r->Ok_0@[m];
            &&& told.module_id == modules@[m].module_id
            &&& told.routes@.len() == modules@[m].routes@.len()
            &&& 0 <= i < told.routes@.len() ==> {
                let route = modules@[m].routes@[i];
                let said = told.routes@[i];
                &&& route.principal matches Principal::Reserved { module_id } ==> said.consumer
                    == (SupervisorRouteConsumer::Reserved { module_id })
                &&& !(route.principal is Reserved) ==> said.consumer == (
                SupervisorRouteConsumer::Direct { connection_id: route.connection_id })
                &&& said.draining == route.draining
                &&& said.drain_reason == route.drain_reason
                &&& route.now <= route.bound_at ==> said.age_ms == 0
                &&& route.bound_at < route.now && (route.now - route.bound_at) / 1_000_000
                    <= u64::MAX ==> said.age_ms == (route.now - route.bound_at) / 1_000_000
            }
        }),
{
    if census is Ok && 0 <= m < census->Ok_0@.len() {
        let _ = r->Ok_0@[m];
    }
}

/// The `k`-th registration is the last of its id: the one that counts.
pub open spec fn last_registered(registered: Seq<RegisteredCapabilities>, k: int) -> bool {
    &&& 0 <= k < registered.len()
    &&& forall|n: int|
        k < n < registered.len() ==> (#[trigger] registered[n]).module_id@
            != registered[k].module_id@
}

/// What the opener must never reach meets what the target provides.
pub open spec fn declarations_meet(
    opener: Option<CapabilityDeclarations>,
    target: Option<CapabilityDeclarations>,
) -> bool {
    opener matches Some(mine) && target matches Some(theirs) && exists|d: int, c: int|
        0 <= d < mine.must_never_reach@.len() && 0 <= c < theirs.provides@.len() && (
        #[trigger] mine.must_never_reach@[d])@ == (#[trigger] theirs.provides@[c])@
}

proof fn the_last_registration_counts(registered: Seq<RegisteredCapabilities>, k: int)
    requires
        last_registered(registered, k),
    ensures
        registration_at(registered, registered[k].module_id@) == Some(k),
    decreases registered.len(),
{
    let last = registered.len() - 1;
    if k < last {
        let before = registered.drop_last();
        assert(before[k] == registered[k]);
        assert forall|n: int| k < n < before.len() implies (#[trigger] before[n]).module_id@
            != before[k].module_id@ by {
            assert(before[n] == registered[n]);
        }
        the_last_registration_counts(before, k);
        assert(registered[last].module_id@ != registered[k].module_id@);
    }
}

/// A route of a registered module to a registered target is cut exactly where the one
/// must never reach a capability that the other provides, by the last registration of
/// each.
pub proof fn a_route_is_cut_exactly_where_the_declarations_meet(
    registered: &Vec<RegisteredCapabilities>,
    census: &Vec<CensusTarget>,
    r: Vec<Vec<DeniedRoute>>,
    t: int,
    i: int,
    from: int,
    to: int,
)
    requires
        call_ensures(enforce_capability_denies, (registered, census), r),
        0 <= t < census@.len(),
        0 <= i < census@[t].routes@.len(),
        last_registered(registered@, from),
        last_registered(registered@, to),
        registered@[to].module_id@ == census@[t].module_id@,
        census@[t].routes@[i].principal matches Principal::Reserved { module_id } && module_id@
            == registered@[from].module_id@,
    ensures
        r@.len() == census@.len(),
        (exists|k: int| 0 <= k < r@[t]@.len() && (#[trigger] r@[t]@[k]).route == i) <==> declarations_meet(
            registered@[from].capabilities,
            registered@[to].capabilities,
        ),
{
    let target = census@[t];
    let found = forbidden_routes(registered@, target.module_id@, target.routes@);
    assert(census_views(r@).len() == r@.len());
    assert(census_of(registered@, census@).len() == census@.len());
    assert(census_views(r@)[t] == denied_views(r@[t]@));
    assert(census_of(registered@, census@)[t] == found);
    the_last_registration_counts(registered@, from);
    the_last_registration_counts(registered@, to);
    a_route_is_cut_exactly_when_it_is_forbidden(registered@, target.module_id@, target.routes@, i);
    let mine = registered@[from].capabilities;
    let theirs = registered@[to].capabilities;
    let denied = crate::control::manifest::denials(
        crate::control::manifest::capabilities_view(mine),
    );
    let claimed = crate::control::manifest::claims(
        crate::control::manifest::capabilities_view(theirs),
    );
    denied_iff_lists_meet(denied, claimed);
    if declarations_meet(mine, theirs) {
        let (d, c) = choose|d: int, c: int|
            0 <= d < mine->0.must_never_reach@.len() && 0 <= c < theirs->0.provides@.len() && (
            #[trigger] mine->0.must_never_reach@[d])@ == (#[trigger] theirs->0.provides@[c])@;
        assert(denied[d] == mine->0.must_never_reach@[d]@);
        assert(claimed[c] == theirs->0.provides@[c]@);
        assert(claimed.contains(denied[d]));
    }
    if exists|d: int| 0 <= d < denied.len() && claimed.contains(#[trigger] denied[d]) {
        let d = choose|d: int| 0 <= d < denied.len() && claimed.contains(#[trigger] denied[d]);
        let c = choose|c: int| 0 <= c < claimed.len() && claimed[c] == denied[d];
        assert(denied[d] == mine->0.must_never_reach@[d]@);
        assert(claimed[c] == theirs->0.provides@[c]@);
    }
    assert(denied_views(r@[t]@).len() == r@[t]@.len());
    if exists|k: int| 0 <= k < found.len() && (#[trigger] found[k]).0 == i {
        let k = choose|k: int| 0 <= k < found.len() && (#[trigger] found[k]).0 == i;
        assert(denied_views(r@[t]@)[k] == (r@[t]@[k].route as int, r@[t]@[k].capability@));
        assert(r@[t]@[k].route == i);
    }
    if exists|k: int| 0 <= k < r@[t]@.len() && (#[trigger] r@[t]@[k]).route == i {
        let k = choose|k: int| 0 <= k < r@[t]@.len() && (#[trigger] r@[t]@[k]).route == i;
        assert(denied_views(r@[t]@)[k] == (r@[t]@[k].route as int, r@[t]@[k].capability@));
        assert(found[k].0 == i);
    }
}

/// A route of a caller that is no reserved module is never cut.
pub proof fn a_direct_route_is_never_cut(
    registered: &Vec<RegisteredCapabilities>,
    census: &Vec<CensusTarget>,
    r: Vec<Vec<DeniedRoute>>,
    t: int,
    i: int,
    k: int,
)
    requires
        call_ensures(enforce_capability_denies, (registered, census), r),
        0 <= t < census@.len(),
        0 <= i < census@[t].routes@.len(),
        !(census@[t].routes@[i].principal is Reserved),
        0 <= k < r@[t]@.len(),
    ensures
        r@[t]@[k].route != i,
{
    let target = census@[t];
    let found = forbidden_routes(registered@, target.module_id@, target.routes@);
    assert(census_views(r@).len() == r@.len());
    assert(census_of(registered@, census@).len() == census@.len());
    assert(census_views(r@)[t] == denied_views(r@[t]@));
    assert(census_of(registered@, census@)[t] == found);
    a_route_is_cut_exactly_when_it_is_forbidden(registered@, target.module_id@, target.routes@, i);
    assert(denied_views(r@[t]@)[k] == (r@[t]@[k].route as int, r@[t]@[k].capability@));
    assert(found[k].0 == r@[t]@[k].route as int);
}

proof fn a_first_is_not_seen_before(connections: Seq<u64>, k: int)
    requires
        0 <= k < firsts(connections).len(),
    ensures
        0 <= firsts(connections)[k] < connections.len(),
        forall|n: int|
            0 <= n < firsts(connections)[k] ==> #[trigger] connections[n]
                != connections[firsts(connections)[k]],
    decreases connections.len(),
{
    let rest = connections.drop_last();
    let was = firsts(rest);
    let last = connections.len() - 1;
    if k < was.len() {
        a_first_is_not_seen_before(rest, k);
        assert(firsts(connections)[k] == was[k]);
        assert(rest[was[k]] == connections[was[k]]);
        assert forall|n: int| 0 <= n < was[k] implies #[trigger] connections[n]
            != connections[was[k]] by {
            assert(rest[n] == connections[n]);
        }
    } else {
        assert(firsts(connections)[k] == last);
        assert(!seen_before(connections, last));
    }
}

/// A connection is pushed to through the first target that it has.
pub proof fn a_connection_is_pushed_to_through_its_first_target(
    targets: &Vec<GoodbyeTarget>,
    r: Vec<usize>,
    k: int,
    n: int,
)
    requires
        call_ensures(push_targets, (targets,), r),
        0 <= k < r@.len(),
        0 <= n < r@[k],
    ensures
        r@[k] < targets@.len(),
        targets@[n].connection_id != targets@[r@[k] as int].connection_id,
{
    let connections = connections_of(targets@);
    assert(as_ints(r@).len() == r@.len());
    assert(as_ints(r@)[k] == r@[k] as int);
    a_first_is_not_seen_before(connections, k);
    assert(connections[n] == targets@[n].connection_id);
    assert(connections[r@[k] as int] == targets@[r@[k] as int].connection_id);
}

proof fn a_cut_names_what_forbids_it(
    registered: Seq<RegisteredCapabilities>,
    target: Seq<char>,
    routes: Seq<CensusRoute>,
    k: int,
)
    requires
        0 <= k < forbidden_routes(registered, target, routes).len(),
    ensures
        ({
            let (i, capability) = forbidden_routes(registered, target, routes)[k];
            &&& 0 <= i < routes.len()
            &&& forbidden(registered, target, routes[i].principal@) == Some(capability)
        }),
    decreases routes.len(),
{
    let rest = routes.drop_last();
    let was = forbidden_routes(registered, target, rest);
    if k < was.len() {
        a_cut_names_what_forbids_it(registered, target, rest, k);
        assert(forbidden_routes(registered, target, routes)[k] == was[k]);
        assert(rest[was[k].0] == routes[was[k].0]);
    }
}

/// Each cut names a route of its target and a capability that the target provides and
/// that the route's own module must never reach.
pub proof fn a_cut_names_its_capability(
    registered: &Vec<RegisteredCapabilities>,
    census: &Vec<CensusTarget>,
    r: Vec<Vec<DeniedRoute>>,
    t: int,
    k: int,
    to: int,
)
    requires
        call_ensures(enforce_capability_denies, (registered, census), r),
        0 <= t < census@.len(),
        0 <= k < r@[t]@.len(),
        last_registered(registered@, to),
        registered@[to].module_id@ == census@[t].module_id@,
    ensures
        r@[t]@[k].route < census@[t].routes@.len(),
        census@[t].routes@[r@[t]@[k].route as int].principal is Reserved,
        registered@[to].capabilities is Some,
        texts(registered@[to].capabilities->0.provides@).contains(r@[t]@[k].capability@),
{
    let target = census@[t];
    let found = forbidden_routes(registered@, target.module_id@, target.routes@);
    assert(census_views(r@).len() == r@.len());
    assert(census_of(registered@, census@).len() == census@.len());
    assert(census_views(r@)[t] == denied_views(r@[t]@));
    assert(census_of(registered@, census@)[t] == found);
    assert(denied_views(r@[t]@)[k] == (r@[t]@[k].route as int, r@[t]@[k].capability@));
    a_cut_names_what_forbids_it(registered@, target.module_id@, target.routes@, k);
    the_last_registration_counts(registered@, to);
    let principal = target.routes@[found[k].0].principal@;
    let from = registration_at(registered@, principal->module_id)->0;
    denied_iff_lists_meet(
        crate::control::manifest::denials(
            crate::control::manifest::capabilities_view(registered@[from].capabilities),
        ),
        crate::control::manifest::claims(
            crate::control::manifest::capabilities_view(registered@[to].capabilities),
        ),
    );
}

proof fn an_unknown_id_has_no_registration(
    registered: Seq<RegisteredCapabilities>,
    id: Seq<char>,
)
    requires
        forall|n: int| 0 <= n < registered.len() ==> (#[trigger] registered[n]).module_id@ != id,
    ensures
        registration_at(registered, id) is None,
    decreases registered.len(),
{
    if registered.len() > 0 {
        let rest = registered.drop_last();
        assert(registered[registered.len() - 1].module_id@ != id);
        assert forall|n: int| 0 <= n < rest.len() implies (#[trigger] rest[n]).module_id@ != id by {
            assert(rest[n] == registered[n]);
        }
        an_unknown_id_has_no_registration(rest, id);
    }
}

/// A route is left alone where its target or its own module is not registered.
pub proof fn a_route_of_the_unregistered_is_left_alone(
    registered: &Vec<RegisteredCapabilities>,
    census: &Vec<CensusTarget>,
    r: Vec<Vec<DeniedRoute>>,
    t: int,
    k: int,
)
    requires
        call_ensures(enforce_capability_denies, (registered, census), r),
        0 <= t < census@.len(),
        0 <= k < r@[t]@.len(),
    ensures
        exists|n: int|
            0 <= n < registered@.len() && (#[trigger] registered@[n]).module_id@
                == census@[t].module_id@,
        census@[t].routes@[r@[t]@[k].route as int].principal matches Principal::Reserved {
            module_id,
        } ==> exists|n: int|
            0 <= n < registered@.len() && (#[trigger] registered@[n]).module_id@ == module_id@,
{
    let target = census@[t];
    let found = forbidden_routes(registered@, target.module_id@, target.routes@);
    assert(census_views(r@).len() == r@.len());
    assert(census_of(registered@, census@).len() == census@.len());
    assert(census_views(r@)[t] == denied_views(r@[t]@));
    assert(census_of(registered@, census@)[t] == found);
    assert(denied_views(r@[t]@)[k] == (r@[t]@[k].route as int, r@[t]@[k].capability@));
    a_cut_names_what_forbids_it(registered@, target.module_id@, target.routes@, k);
    let route = target.routes@[found[k].0];
    if forall|n: int|
        0 <= n < registered@.len() ==> (#[trigger] registered@[n]).module_id@
            != target.module_id@ {
        an_unknown_id_has_no_registration(registered@, target.module_id@);
    }
    if route.principal is Reserved {
        let id = route.principal->module_id@;
        if forall|n: int|
            0 <= n < registered@.len() ==> (#[trigger] registered@[n]).module_id@ != id {
            an_unknown_id_has_no_registration(registered@, id);
        }
    }
}

} // verus!
