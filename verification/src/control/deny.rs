//! Cutting live routes that a capability rule has come to forbid.
use crate::control::manifest::{
    capabilities_view, claims, denials, denied_capability, first_denied, CapabilityDeclarations,
};
use crate::control::pushes::{cut, route_closed, RouteCloseReason, RouteClosed};
use crate::control::route_open::{Principal, PrincipalView};
use crate::text::{same, text_option};
use vstd::prelude::*;

verus! {

/// A registered module's declarations.
#[derive(Debug)]
pub struct RegisteredCapabilities {
    pub module_id: String,
    pub capabilities: Option<CapabilityDeclarations>,
}

/// A live route to some module.
#[derive(Debug)]
pub struct CensusRoute {
    pub principal: Principal,
    pub connection_id: u64,
    pub channel: u16,
    pub epoch: u32,
}

/// A module with the live routes to it.
#[derive(Debug)]
pub struct CensusTarget {
    pub module_id: String,
    pub routes: Vec<CensusRoute>,
}

/// Where the last registration of the id stands.
pub open spec fn registration_at(registered: Seq<RegisteredCapabilities>, id: Seq<char>) -> Option<
    int,
>
    decreases registered.len(),
{
    if registered.len() == 0 {
        None
    } else if registered.last().module_id@ == id {
        Some(registered.len() - 1)
    } else {
        registration_at(registered.drop_last(), id)
    }
}

/// The capability for which a route from the principal to the target is
/// forbidden. Only a caller that was attested is bound by what it declared, and
/// both must be registered now.
pub open spec fn forbidden(
    registered: Seq<RegisteredCapabilities>,
    target: Seq<char>,
    principal: PrincipalView,
) -> Option<Seq<char>> {
    match (registration_at(registered, target), principal) {
        (Some(to), PrincipalView::Reserved { module_id }) => match registration_at(
            registered,
            module_id,
        ) {
            Some(from) => first_denied(
                denials(capabilities_view(registered[from].capabilities)),
                claims(capabilities_view(registered[to].capabilities)),
            ),
            None => None,
        },
        _ => None,
    }
}

/// A route to be cut.
#[derive(Debug)]
pub struct DeniedRoute {
    /// Its place among the target's routes.
    pub route: usize,
    pub capability: String,
}

/// The forbidden routes of a target, by their places, each with its capability.
pub open spec fn forbidden_routes(
    registered: Seq<RegisteredCapabilities>,
    target: Seq<char>,
    routes: Seq<CensusRoute>,
) -> Seq<(int, Seq<char>)>
    decreases routes.len(),
{
    if routes.len() == 0 {
        Seq::empty()
    } else {
        let before = forbidden_routes(registered, target, routes.drop_last());
        match forbidden(registered, target, routes.last().principal@) {
            Some(capability) => before.push((routes.len() - 1, capability)),
            None => before,
        }
    }
}

/// The routes to be cut over characters.
pub open spec fn denied_views(denied: Seq<DeniedRoute>) -> Seq<(int, Seq<char>)> {
    denied.map_values(|d: DeniedRoute| (d.route as int, d.capability@))
}

proof fn the_last_of_its_name(registered: Seq<RegisteredCapabilities>, id: Seq<char>, i: int)
    requires
        0 <= i < registered.len(),
        registered[i].module_id@ == id,
        forall|j: int| i < j < registered.len() ==> (#[trigger] registered[j]).module_id@ != id,
    ensures
        registration_at(registered, id) == Some(i),
    decreases registered.len(),
{
    if i < registered.len() - 1 {
        assert(registered[registered.len() - 1].module_id@ != id);
        let rest = registered.drop_last();
        assert forall|j: int| i < j < rest.len() implies (#[trigger] rest[j]).module_id@ != id by {
            assert(registered[j] == rest[j]);
        }
        the_last_of_its_name(rest, id, i);
    }
}

proof fn nobody_of_that_name(registered: Seq<RegisteredCapabilities>, id: Seq<char>)
    requires
        forall|j: int| 0 <= j < registered.len() ==> (#[trigger] registered[j]).module_id@ != id,
    ensures
        registration_at(registered, id) is None,
    decreases registered.len(),
{
    if registered.len() > 0 {
        assert(registered[registered.len() - 1].module_id@ != id);
        let rest = registered.drop_last();
        assert forall|j: int| 0 <= j < rest.len() implies (#[trigger] rest[j]).module_id@ != id by {
            assert(registered[j] == rest[j]);
        }
        nobody_of_that_name(rest, id);
    }
}

fn find_registration(registered: &Vec<RegisteredCapabilities>, id: &str) -> (r: Option<usize>)
    ensures
        match r {
            Some(i) => i < registered@.len() && registration_at(registered@, id@) == Some(i as int),
            None => registration_at(registered@, id@) is None,
        },
{
    let mut i: usize = registered.len();
    while i > 0
        invariant
            i <= registered.len(),
            forall|j: int|
                i <= j < registered@.len() ==> (#[trigger] registered@[j]).module_id@ != id@,
        decreases i,
    {
        i -= 1;
        if same(registered[i].module_id.as_str(), id) {
            proof {
                the_last_of_its_name(registered@, id@, i as int);
            }
            return Some(i);
        }
    }
    proof {
        nobody_of_that_name(registered@, id@);
    }
    None
}

fn forbidding_capability(
    registered: &Vec<RegisteredCapabilities>,
    target: &str,
    principal: &Principal,
) -> (r: Option<String>)
    ensures
        text_option(r) == forbidden(registered@, target@, principal@),
{
    let to: usize = match find_registration(registered, target) {
        Some(to) => to,
        None => return None,
    };
    let opener: &str = match principal {
        Principal::Reserved { module_id } => module_id.as_str(),
        _ => return None,
    };
    match find_registration(registered, opener) {
        Some(from) => denied_capability(
            registered[from].capabilities.as_ref(),
            registered[to].capabilities.as_ref(),
        ),
        None => None,
    }
}

/// The routes to a target that are to be cut.
pub fn denied_routes(
    registered: &Vec<RegisteredCapabilities>,
    target: &str,
    routes: &Vec<CensusRoute>,
) -> (r: Vec<DeniedRoute>)
    ensures
        denied_views(r@) == forbidden_routes(registered@, target@, routes@),
{
    let mut r: Vec<DeniedRoute> = Vec::new();
    let mut i: usize = 0;
    proof {
        assert(denied_views(r@) =~= Seq::empty());
    }
    while i < routes.len()
        invariant
            i <= routes.len(),
            denied_views(r@) == forbidden_routes(registered@, target@, routes@.take(i as int)),
        decreases routes.len() - i,
    {
        let ghost was = r@;
        proof {
            assert(routes@.take(i + 1).drop_last() =~= routes@.take(i as int));
            assert(routes@.take(i + 1).last() == routes@[i as int]);
        }
        if let Some(capability) = forbidding_capability(registered, target, &routes[i].principal) {
            r.push(DeniedRoute { route: i, capability });
            proof {
                assert(denied_views(r@) =~= denied_views(was).push((i as int, capability@)));
            }
        }
        i += 1;
    }
    proof {
        assert(routes@.take(i as int) =~= routes@);
    }
    r
}

/// The forbidden routes of every target.
pub open spec fn census_of(
    registered: Seq<RegisteredCapabilities>,
    census: Seq<CensusTarget>,
) -> Seq<Seq<(int, Seq<char>)>> {
    census.map_values(
        |t: CensusTarget| forbidden_routes(registered, t.module_id@, t.routes@),
    )
}

/// The routes to be cut of every target, over characters.
pub open spec fn census_views(denied: Seq<Vec<DeniedRoute>>) -> Seq<Seq<(int, Seq<char>)>> {
    denied.map_values(|d: Vec<DeniedRoute>| denied_views(d@))
}

/// Finds, for every target, the live routes that are to be cut.
pub fn enforce_capability_denies(
    registered: &Vec<RegisteredCapabilities>,
    census: &Vec<CensusTarget>,
) -> (r: Vec<Vec<DeniedRoute>>)
    ensures
        census_views(r@) == census_of(registered@, census@),
{
    let mut r: Vec<Vec<DeniedRoute>> = Vec::new();
    let mut i: usize = 0;
    while i < census.len()
        invariant
            i <= census.len(),
            census_views(r@) =~= census_of(registered@, census@).take(i as int),
        decreases census.len() - i,
    {
        let ghost was = r@;
        let denied: Vec<DeniedRoute> = denied_routes(
            registered,
            census[i].module_id.as_str(),
            &census[i].routes,
        );
        r.push(denied);
        proof {
            assert(census_views(r@) =~= census_views(was).push(denied_views(denied@)));
            assert(census_of(registered@, census@)[i as int] == denied_views(denied@));
            assert(census_of(registered@, census@).take(i + 1) =~= census_of(
                registered@,
                census@,
            ).take(i as int).push(denied_views(denied@)));
        }
        i += 1;
    }
    proof {
        assert(census_of(registered@, census@).take(i as int) =~= census_of(registered@, census@));
    }
    r
}

/// What the clients of cut routes are told. Nothing is told where no route went.
pub fn denied_notice(module_id: &str, removed: usize) -> (r: Option<RouteClosed>)
    ensures
        r is Some <==> removed > 0,
        r matches Some(push) ==> push@ == cut(
            module_id@,
            RouteCloseReason::CapabilityDenied,
            false,
        ),
{
    if removed > 0 {
        Some(route_closed(module_id, RouteCloseReason::CapabilityDenied, false))
    } else {
        None
    }
}

proof fn listed_iff_forbidden(
    registered: Seq<RegisteredCapabilities>,
    target: Seq<char>,
    routes: Seq<CensusRoute>,
)
    ensures
        forall|k: int|
            #![trigger forbidden_routes(registered, target, routes)[k]]
            0 <= k < forbidden_routes(registered, target, routes).len() ==> {
                let listed = forbidden_routes(registered, target, routes)[k];
                &&& 0 <= listed.0 < routes.len()
                &&& forbidden(registered, target, routes[listed.0].principal@) == Some(listed.1)
            },
        forall|i: int|
            #![trigger routes[i]]
            0 <= i < routes.len() && forbidden(registered, target, routes[i].principal@) is Some
                ==> exists|k: int|
                0 <= k < forbidden_routes(registered, target, routes).len() && (
                #[trigger] forbidden_routes(registered, target, routes)[k]).0 == i,
    decreases routes.len(),
{
    if routes.len() > 0 {
        let rest = routes.drop_last();
        let all = forbidden_routes(registered, target, routes);
        let before = forbidden_routes(registered, target, rest);
        listed_iff_forbidden(registered, target, rest);
        assert forall|k: int| #![trigger all[k]] 0 <= k < all.len() implies 0 <= all[k].0
            < routes.len() && forbidden(registered, target, routes[all[k].0].principal@) == Some(
            all[k].1,
        ) by {
            if k < before.len() {
                assert(all[k] == before[k]);
                assert(rest[before[k].0] == routes[before[k].0]);
            }
        }
        assert forall|i: int|
            #![trigger routes[i]]
            0 <= i < routes.len() && forbidden(
                registered,
                target,
                routes[i].principal@,
            ) is Some implies exists|k: int| 0 <= k < all.len() && (#[trigger] all[k]).0 == i by {
            if i < rest.len() {
                assert(rest[i] == routes[i]);
                let k = choose|k: int| 0 <= k < before.len() && (#[trigger] before[k]).0 == i;
                assert(all[k] == before[k]);
            } else {
                assert(all[before.len() as int].0 == i);
            }
        }
    }
}

/// A route is cut exactly when its attested caller must never reach what the
/// target claims. A caller that was not attested is never cut.
pub proof fn a_route_is_cut_exactly_when_it_is_forbidden(
    registered: Seq<RegisteredCapabilities>,
    target: Seq<char>,
    routes: Seq<CensusRoute>,
    i: int,
)
    requires
        0 <= i < routes.len(),
    ensures
        forbidden(registered, target, routes[i].principal@) is Some <==> exists|k: int|
            0 <= k < forbidden_routes(registered, target, routes).len() && (
            #[trigger] forbidden_routes(registered, target, routes)[k]).0 == i,
        routes[i].principal@ !is Reserved ==> forbidden(
            registered,
            target,
            routes[i].principal@,
        ) is None,
{
    listed_iff_forbidden(registered, target, routes);
    let all = forbidden_routes(registered, target, routes);
    if exists|k: int| 0 <= k < all.len() && (#[trigger] all[k]).0 == i {
        let k = choose|k: int| 0 <= k < all.len() && (#[trigger] all[k]).0 == i;
        assert(forbidden(registered, target, routes[all[k].0].principal@) == Some(all[k].1));
    }
}

} // verus!
