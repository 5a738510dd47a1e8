//! What clients are told of the live routes.
use crate::control::fault::{FaultView, ForwardingError, RouterError};
use crate::control::route_open::Principal;
use crate::span::NANOS_PER_MILLI;
use vstd::prelude::*;

verus! {

/// A live route as the forwarding table holds it. `D` is why it drains.
#[derive(Debug)]
pub struct LiveRoute<D> {
    pub principal: Principal,
    pub connection_id: u64,
    /// When it was bound, in nanoseconds of the daemon's clock.
    pub bound_at: u128,
    /// When it was looked at, on the same clock.
    pub now: u128,
    pub draining: bool,
    pub drain_reason: Option<D>,
}

/// Who holds a route, as far as a client is told.
#[derive(Debug)]
pub enum SupervisorRouteConsumer {
    Reserved { module_id: String },
    Direct { connection_id: u64 },
}

/// A live route as a client is told of it.
#[derive(Debug)]
pub struct SupervisorRoute<D> {
    pub consumer: SupervisorRouteConsumer,
    pub age_ms: u64,
    pub draining: bool,
    pub drain_reason: Option<D>,
}

/// Whole milliseconds from `bound_at` to `now`, none where it is not past, and no
/// more than there can be.
pub open spec fn age_of(bound_at: nat, now: nat) -> u64 {
    let ms = if bound_at < now {
        (now - bound_at) as nat / (NANOS_PER_MILLI as nat)
    } else {
        0
    };
    if ms <= u64::MAX {
        ms as u64
    } else {
        u64::MAX
    }
}

/// A live route as a client is told of it: an attested module is named, everyone
/// else is known by the connection alone.
pub open spec fn route_told<D>(route: LiveRoute<D>) -> SupervisorRoute<D> {
    SupervisorRoute {
        consumer: match route.principal {
            Principal::Reserved { module_id } => SupervisorRouteConsumer::Reserved { module_id },
            _ => SupervisorRouteConsumer::Direct { connection_id: route.connection_id },
        },
        age_ms: age_of(route.bound_at as nat, route.now as nat),
        draining: route.draining,
        drain_reason: route.drain_reason,
    }
}

/// A live route as a client is told of it.
pub fn supervisor_route<D>(route: LiveRoute<D>) -> (r: SupervisorRoute<D>)
    ensures
        r == route_told(route),
{
    let age: u128 = if route.bound_at < route.now {
        (route.now - route.bound_at) / NANOS_PER_MILLI
    } else {
        0
    };
    SupervisorRoute {
        consumer: match route.principal {
            Principal::Reserved { module_id } => SupervisorRouteConsumer::Reserved { module_id },
            Principal::Direct => SupervisorRouteConsumer::Direct {
                connection_id: route.connection_id,
            },
            Principal::Unverified => SupervisorRouteConsumer::Direct {
                connection_id: route.connection_id,
            },
        },
        age_ms: if age <= u64::MAX as u128 {
            age as u64
        } else {
            u64::MAX
        },
        draining: route.draining,
        drain_reason: route.drain_reason,
    }
}

fn routes_told<D>(routes: Vec<LiveRoute<D>>) -> (r: Vec<SupervisorRoute<D>>)
    ensures
        r@ == routes@.map_values(|route: LiveRoute<D>| route_told(route)),
{
    let ghost all = routes@;
    let ghost told = |route: LiveRoute<D>| route_told(route);
    let mut rest: Vec<LiveRoute<D>> = routes;
    let mut r: Vec<SupervisorRoute<D>> = Vec::new();
    let mut i: usize = 0;
    let n: usize = rest.len();
    while i < n
        invariant
            i <= n,
            all == routes@,
            n == all.len(),
            rest@ == all.skip(i as int),
            told == (|route: LiveRoute<D>| route_told(route)),
            r@ == all.take(i as int).map_values(told),
        decreases n - i,
    {
        let route: LiveRoute<D> = rest.remove(0);
        let ghost was = r@;
        proof {
            assert(route == all[i as int]);
            assert(rest@ =~= all.skip(i + 1));
        }
        r.push(supervisor_route(route));
        proof {
            assert(r@ =~= all.take(i + 1).map_values(told));
        }
        i += 1;
    }
    proof {
        assert(all.take(i as int) =~= all);
    }
    r
}

/// The live routes to one module.
#[derive(Debug)]
pub struct ModuleRoutes<D> {
    pub module_id: String,
    pub routes: Vec<LiveRoute<D>>,
}

/// The live routes to one module, as a client is told of them.
#[derive(Debug)]
pub struct SupervisorRouteModule<D> {
    pub module_id: String,
    pub routes: Vec<SupervisorRoute<D>>,
}

/// The client is told every route to the module, in order.
pub open spec fn module_told<D>(told: SupervisorRouteModule<D>, module: ModuleRoutes<D>) -> bool {
    &&& told.module_id == module.module_id
    &&& told.routes@ == module.routes@.map_values(|route: LiveRoute<D>| route_told(route))
}

/// Answers `supervisor.routes` from the census of the forwarding table.
pub fn supervisor_routes<D>(census: Result<Vec<ModuleRoutes<D>>, ForwardingError>) -> (r: Result<
    Vec<SupervisorRouteModule<D>>,
    RouterError,
>)
    ensures
        match census {
            Err(e) => r matches Err(fault) && fault@ == FaultView::Forwarding(e),
            Ok(modules) => r matches Ok(told) && told.len() == modules.len() && forall|i: int|
                0 <= i < told.len() ==> module_told(#[trigger] told@[i], modules@[i]),
        },
{
    let modules: Vec<ModuleRoutes<D>> = match census {
        Ok(modules) => modules,
        Err(e) => {
            return Err(RouterError::Forwarding(e));
        },
    };
    let ghost all = modules@;
    let mut rest: Vec<ModuleRoutes<D>> = modules;
    let mut r: Vec<SupervisorRouteModule<D>> = Vec::new();
    let mut i: usize = 0;
    let n: usize = rest.len();
    while i < n
        invariant
            i <= n,
            census matches Ok(modules) && all == modules@,
            n == all.len(),
            rest@ == all.skip(i as int),
            r.len() == i,
            forall|j: int| 0 <= j < i ==> module_told(#[trigger] r@[j], all[j]),
        decreases n - i,
    {
        let module: ModuleRoutes<D> = rest.remove(0);
        proof {
            assert(module == all[i as int]);
            assert(rest@ =~= all.skip(i + 1));
        }
        r.push(
            SupervisorRouteModule {
                module_id: module.module_id,
                routes: routes_told(module.routes),
            },
        );
        i += 1;
    }
    Ok(r)
}

} // verus!
