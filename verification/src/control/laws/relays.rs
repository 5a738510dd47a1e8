//! What holds of every bind that is relayed to a module: who is admitted, what its
//! end says, and what is left behind.
use crate::control::breaker::{
    open_rows, BreakerOpened, ModuleBreakerState, OpenBreaker, RouteBindAdmission,
    RouteBindBreakers,
};
use crate::control::answers::{faults, tells};
use crate::control::concurrency::RouteBindConcurrency;
use crate::control::fault::{forwarding_error_code, ForwardingError, RouterError};
use crate::control::guards::{
    ModuleControlRpcGuard, ModuleEndpointId, PendingExchange, RouteBindReservationGuard,
};
use crate::control::laws::opening::refuses;
use crate::control::route_open::{
    admit_relay, settle_relay, BreakerPolicy, RefusalCounter, RelayAdmission, RelayAnswer, RelayEnd,
    RelaySettlement,
};
use crate::span::{duration_words, Span};
use crate::text::{before, decimal};
use crate::text_map::ascending;
use vstd::prelude::*;

verus! {

/// How many relays to a module are under way.
pub open spec fn under_way(counts: Map<Seq<char>, usize>, id: Seq<char>) -> nat {
    if counts.dom().contains(id) {
        counts[id] as nat
    } else {
        0
    }
}

/// The module's breaker is open: timeouts set it a time before which nothing is tried.
pub open spec fn is_open(states: Map<Seq<char>, ModuleBreakerState>, id: Seq<char>) -> bool {
    states.dom().contains(id) && states[id].cooldown_until is Some
}

/// A slot is given where fewer than the limit are taken, and then one more is; else
/// the number taken is told and nothing changes. No other module is touched.
pub proof fn a_slot_is_given_below_the_limit(module_id: &str, limit: usize, other: Seq<char>)
    ensures
        forall|c: &mut RouteBindConcurrency, r: Result<(), usize>|
            {
                let taken = under_way((*c)@, module_id@);
                #[trigger] call_ensures(RouteBindConcurrency::try_admit, (c, module_id, limit), r)
                    ==> {
                    &&& r is Ok <==> taken < limit
                    &&& r is Ok ==> under_way((*final(c))@, module_id@) == taken + 1
                    &&& r matches Err(n) ==> n == taken && under_way((*final(c))@, module_id@)
                        == taken
                    &&& other != module_id@ ==> under_way((*final(c))@, other) == under_way(
                        (*c)@,
                        other,
                    )
                }
            },
{
}

/// A slot that is given back is one fewer taken, and no other module is touched.
pub proof fn a_slot_given_back_is_one_fewer(module_id: &str, other: Seq<char>)
    ensures
        forall|c: &mut RouteBindConcurrency, r: ()|
            {
                let taken = under_way((*c)@, module_id@);
                #[trigger] call_ensures(RouteBindConcurrency::release, (c, module_id), r) && taken
                    > 0 ==> {
                    &&& under_way((*final(c))@, module_id@) == taken - 1
                    &&& other != module_id@ ==> under_way((*final(c))@, other) == under_way(
                        (*c)@,
                        other,
                    )
                }
            },
{
}

/// A module with a closed breaker is relayed to. One with an open breaker is tried
/// once its time has come, by one probe at a time; before that the caller is told how
/// many timeouts there were and how long to wait.
pub proof fn who_passes_a_breaker(module_id: &str, now: u128)
    ensures
        forall|b: &mut RouteBindBreakers, r: RouteBindAdmission|
            {
                let id = module_id@;
                let was = (*b)@;
                let then_b = (*final(b))@;
                #[trigger] call_ensures(RouteBindBreakers::admit_open, (b, module_id, now), r) ==> {
                    &&& !is_open(was, id) ==> r == RouteBindAdmission::Admitted { probe: false }
                        && then_b == was
                    &&& is_open(was, id) && was[id].probe_in_flight ==> (
                    r matches RouteBindAdmission::Refused {
                        consecutive_timeouts,
                        retry_in,
                        probe_in_flight,
                    } && consecutive_timeouts == was[id].consecutive_timeouts && retry_in@ == 0
                        && probe_in_flight) && then_b == was
                    &&& is_open(was, id) && !was[id].probe_in_flight && now
                        < was[id].cooldown_until->0 ==> (r matches RouteBindAdmission::Refused {
                        consecutive_timeouts,
                        retry_in,
                        probe_in_flight,
                    } && consecutive_timeouts == was[id].consecutive_timeouts && retry_in@
                        == was[id].cooldown_until->0 - now && !probe_in_flight) && then_b == was
                    &&& is_open(was, id) && !was[id].probe_in_flight && now
                        >= was[id].cooldown_until->0 ==> r == RouteBindAdmission::Admitted {
                        probe: true,
                    } && then_b.dom().contains(id) && then_b[id].probe_in_flight
                        && then_b[id].cooldown_until == was[id].cooldown_until
                        && then_b[id].consecutive_timeouts == was[id].consecutive_timeouts
                }
            },
{
}

/// A timeout is counted; the one that brings the count to the threshold opens the
/// breaker for the cooldown from then on, and says whether a probe had been out.
pub proof fn a_timeout_counts_towards_the_threshold(
    module_id: &str,
    threshold: u32,
    cooldown: &Span,
    now: u128,
)
    requires
        now + cooldown@ <= u128::MAX,
    ensures
        forall|b: &mut RouteBindBreakers, r: Option<BreakerOpened>|
            {
                let id = module_id@;
                let known = (*b)@.dom().contains(id);
                let then_b = (*final(b))@;
                let counted = if known {
                    (*b)@[id].consecutive_timeouts + 1
                } else {
                    1
                };
                #[trigger] call_ensures(
                    RouteBindBreakers::record_timeout,
                    (b, module_id, threshold, cooldown, now),
                    r,
                ) && counted <= u32::MAX ==> {
                    &&& then_b.dom().contains(id)
                    &&& then_b[id].consecutive_timeouts == counted
                    &&& !then_b[id].probe_in_flight
                    &&& counted >= threshold ==> then_b[id].cooldown_until == Some(
                        (now + cooldown@) as u128,
                    )
                    &&& counted < threshold ==> then_b[id].cooldown_until == if known {
                        (*b)@[id].cooldown_until
                    } else {
                        None
                    }
                    &&& counted < threshold ==> r is None
                    &&& counted >= threshold ==> (r matches Some(opened)
                        && opened.consecutive_timeouts == counted && (opened.reopened_after_probe
                        <==> is_open((*b)@, id) && (*b)@[id].probe_in_flight))
                }
            },
{
}

/// An accepted bind and a new connection clear what was recorded of a module; an end
/// that says nothing of its speed keeps the count and the time and frees the probe.
pub proof fn what_clears_a_breaker(module_id: &str, other: Seq<char>)
    ensures
        forall|b: &mut RouteBindBreakers, r: bool| #[trigger]
            call_ensures(RouteBindBreakers::record_accepted, (b, module_id), r) ==> {
                &&& !(*final(b))@.dom().contains(module_id@)
                &&& r <==> is_open((*b)@, module_id@)
                &&& other != module_id@ ==> ((*final(b))@.dom().contains(other) <==> (
                *b)@.dom().contains(other))
            },
        forall|b: &mut RouteBindBreakers, r: Option<u32>| #[trigger]
            call_ensures(
                RouteBindBreakers::reset_for_new_module_connection,
                (b, module_id),
                r,
            ) ==> {
                let counted = (*b)@.dom().contains(module_id@) && (
                *b)@[module_id@].consecutive_timeouts > 0;
                &&& !(*final(b))@.dom().contains(module_id@)
                &&& counted ==> r == Some((*b)@[module_id@].consecutive_timeouts)
                &&& !counted ==> r is None
            },
        forall|b: &mut RouteBindBreakers, r: ()| #[trigger]
            call_ensures(RouteBindBreakers::record_inconclusive, (b, module_id), r) ==> {
                let id = module_id@;
                &&& (*final(b))@.dom().contains(id) <==> (*b)@.dom().contains(id)
                &&& (*b)@.dom().contains(id) ==> (*final(b))@[id].consecutive_timeouts == (
                *b)@[id].consecutive_timeouts && (*final(b))@[id].cooldown_until == (
                *b)@[id].cooldown_until && !(*final(b))@[id].probe_in_flight
            },
{
}

/// A row of the snapshot is that of a module whose breaker is open, and every such
/// module has a row.
proof fn rows_are_the_open_breakers(
    m: Map<Seq<char>, ModuleBreakerState>,
    keys: Seq<Seq<char>>,
    now: nat,
    k: int,
    id: Seq<char>,
)
    ensures
        0 <= k < open_rows(m, keys, now).len() ==> {
            let row = open_rows(m, keys, now)[k];
            &&& keys.contains(row.module_id)
            &&& m[row.module_id].cooldown_until is Some
            &&& row.consecutive_timeouts == m[row.module_id].consecutive_timeouts
            &&& row.probe_in_flight == m[row.module_id].probe_in_flight
            &&& now >= m[row.module_id].cooldown_until->0 ==> row.cooldown_remaining_ms == 0
            &&& now < m[row.module_id].cooldown_until->0 && (m[row.module_id].cooldown_until->0
                - now) / 1_000_000 <= u64::MAX ==> row.cooldown_remaining_ms == (
            m[row.module_id].cooldown_until->0 - now) / 1_000_000
        },
        keys.contains(id) && m[id].cooldown_until is Some ==> exists|j: int|
            0 <= j < open_rows(m, keys, now).len() && (#[trigger] open_rows(
                m,
                keys,
                now,
            )[j]).module_id == id,
    decreases keys.len(),
{
    if keys.len() > 0 {
        let before = keys.drop_last();
        let rows = open_rows(m, keys, now);
        let was = open_rows(m, before, now);
        rows_are_the_open_breakers(m, before, now, k, id);
        assert(keys[keys.len() - 1] == keys.last());
        if 0 <= k < was.len() {
            assert(rows[k] == was[k]);
            let j = choose|j: int| 0 <= j < before.len() && before[j] == was[k].module_id;
            assert(keys[j] == was[k].module_id);
        }
        if keys.contains(id) && m[id].cooldown_until is Some {
            if id == keys.last() {
                assert(rows[rows.len() - 1].module_id == id);
            } else {
                let j = choose|j: int| 0 <= j < keys.len() && keys[j] == id;
                assert(before[j] == id);
                let n = choose|n: int|
                    0 <= n < was.len() && (#[trigger] was[n]).module_id == id;
                assert(rows[n].module_id == id);
            }
        }
    }
}

/// The snapshot tells of each open breaker its own count, how long it stays shut and
/// whether a probe is out; it is empty exactly where no breaker is open.
pub proof fn a_snapshot_tells_of_each_open_breaker(
    b: &RouteBindBreakers,
    now: u128,
    r: Option<Vec<OpenBreaker>>,
    k: int,
    id: Seq<char>,
)
    requires
        call_ensures(RouteBindBreakers::open_snapshot, (b, now), r),
        b.wf(),
    ensures
        r is None ==> !is_open(b@, id),
        r matches Some(rows) ==> rows@.len() > 0 && (is_open(b@, id) ==> exists|j: int|
            0 <= j < rows@.len() && (#[trigger] rows@[j]).module_id@ == id) && (0 <= k
            < rows@.len() ==> {
            let row = rows@[k];
            let state = b@[row.module_id@];
            &&& is_open(b@, row.module_id@)
            &&& row.consecutive_timeouts == state.consecutive_timeouts
            &&& row.probe_in_flight == state.probe_in_flight
            &&& now >= state.cooldown_until->0 ==> row.cooldown_remaining_ms == 0
            &&& now < state.cooldown_until->0 && (state.cooldown_until->0 - now) / 1_000_000
                <= u64::MAX ==> row.cooldown_remaining_ms == (state.cooldown_until->0 - now)
                / 1_000_000
        }),
{
    b.ids_are_the_domain();
    let all = open_rows(b@, b.ids(), now as nat);
    rows_are_the_open_breakers(b@, b.ids(), now as nat, k, id);
    if r is Some {
        let rows = r->0@;
        let views = rows.map_values(|o: OpenBreaker| o@);
        assert(views == all);
        assert(views.len() == rows.len());
        if 0 <= k < rows.len() {
            assert(views[k] == rows[k]@);
        }
        if is_open(b@, id) {
            assert(b.ids().contains(id));
            let j = choose|j: int| 0 <= j < all.len() && (#[trigger] all[j]).module_id == id;
            assert(views[j] == rows[j]@);
            assert(rows[j].module_id@ == id);
        }
    } else if is_open(b@, id) {
        assert(b.ids().contains(id));
    }
}

/// A relay is admitted where the module has a slot and its breaker lets it through;
/// it then takes the slot. A refusal names what is missing and changes nothing.
pub proof fn who_is_relayed(module_id: &str, limit: usize, now: u128)
    ensures
        forall|c: &mut RouteBindConcurrency, b: &mut RouteBindBreakers, r: RelayAdmission|
            {
                let id = module_id@;
                let taken = under_way((*c)@, id);
                let was = (*b)@;
                let failed = "module_id '"@ + id + "' failed "@ + decimal(
                    was[id].consecutive_timeouts as nat,
                ) + " consecutive route.bind relays; "@;
                #[trigger] call_ensures(admit_relay, (c, b, module_id, limit, now), r) ==> {
                    &&& taken >= limit ==> (r matches RelayAdmission::Refused(refusal) && refuses(
                        refusal,
                        "target_unavailable"@,
                        "module_id '"@ + id + "' already has "@ + decimal(taken)
                            + " route.bind relays in flight; retry after one settles"@,
                    ))
                    &&& taken < limit && !is_open(was, id) ==> r == RelayAdmission::Admitted {
                        probe: false,
                    }
                    &&& taken < limit && is_open(was, id) && was[id].probe_in_flight ==> (
                    r matches RelayAdmission::Refused(refusal) && refusal.counter
                        == RefusalCounter::BreakerOpen && tells(
                        refusal.body,
                        "module_timeout"@,
                        failed + "one probe bind is already in flight; retry once it settles"@,
                    ))
                    &&& taken < limit && is_open(was, id) && !was[id].probe_in_flight && now
                        < was[id].cooldown_until->0 ==> (r matches RelayAdmission::Refused(refusal)
                        && refusal.counter == RefusalCounter::BreakerOpen && tells(
                        refusal.body,
                        "module_timeout"@,
                        failed + ("not relaying for another "@ + duration_words(
                            (was[id].cooldown_until->0 - now) as nat,
                        )),
                    ))
                    &&& taken < limit && is_open(was, id) && !was[id].probe_in_flight && now
                        >= was[id].cooldown_until->0 ==> r == RelayAdmission::Admitted {
                        probe: true,
                    }
                    &&& r is Admitted ==> under_way((*final(c))@, id) == taken + 1
                    &&& r == (RelayAdmission::Admitted { probe: false }) ==> (*final(b))@ == was
                    &&& r == (RelayAdmission::Admitted { probe: true }) ==> (
                    *final(b))@.dom().contains(id) && (*final(b))@[id].probe_in_flight
                        && (*final(b))@[id].cooldown_until == was[id].cooldown_until
                    &&& r is Refused ==> (*final(c))@ == (*c)@ && (*final(b))@ == was
                }
            },
{
}

/// However a relay ends, its slot is given back. Only an accepted bind keeps its
/// reservation, and one that never began has none; only an accepted bind clears the
/// breaker, and only a timeout counts.
pub proof fn how_a_relay_is_settled(
    module_id: &str,
    end: RelayEnd,
    policy: &BreakerPolicy,
    budget: &Span,
    corr: u64,
    now: u128,
)
    requires
        now + policy.cooldown@ <= u128::MAX,
    ensures
        forall|c: &mut RouteBindConcurrency, b: &mut RouteBindBreakers, r: RelaySettlement|
            {
                let id = module_id@;
                let taken = under_way((*c)@, id);
                let was = (*b)@;
                let then_b = (*final(b))@;
                #[trigger] call_ensures(
                    settle_relay,
                    (c, b, module_id, end, policy, budget, corr, now),
                    r,
                ) && taken > 0 ==> {
                    &&& under_way((*final(c))@, id) == taken - 1
                    &&& end is Accepted ==> !r.release_reservation && !then_b.dom().contains(id)
                        && (r.breaker_closed <==> is_open(was, id)) && r.answer is Silent
                    &&& end is BeginFailed ==> !r.release_reservation
                    &&& !(end is Accepted) && !(end is BeginFailed) ==> r.release_reservation
                    &&& !(end is Accepted) ==> !r.breaker_closed
                    &&& !(end is TimedOut) ==> r.breaker_opened is None
                    &&& end is TimedOut && !was.dom().contains(id) ==> then_b.dom().contains(id)
                        && then_b[id].consecutive_timeouts == 1
                    &&& end is TimedOut && was.dom().contains(id)
                        && was[id].consecutive_timeouts < u32::MAX ==> then_b.dom().contains(id)
                        && then_b[id].consecutive_timeouts == was[id].consecutive_timeouts + 1 && (
                    was[id].consecutive_timeouts + 1 >= policy.threshold
                        ==> then_b[id].cooldown_until == Some((now + policy.cooldown@) as u128) && (
                    r.breaker_opened matches Some(opened) && opened.consecutive_timeouts
                        == was[id].consecutive_timeouts + 1 && (opened.reopened_after_probe
                        <==> is_open(was, id) && was[id].probe_in_flight))) && (
                    was[id].consecutive_timeouts + 1 < policy.threshold
                        ==> then_b[id].cooldown_until == was[id].cooldown_until
                        && r.breaker_opened is None)
                    &&& !(end is Accepted) && !(end is TimedOut) && was.dom().contains(id)
                        ==> then_b.dom().contains(id) && then_b[id].consecutive_timeouts
                        == was[id].consecutive_timeouts && then_b[id].cooldown_until
                        == was[id].cooldown_until && !then_b[id].probe_in_flight
                }
            },
{
}

/// What a caller is told of the end of its relay: nothing where it was accepted or
/// the caller is gone, the module's own refusal where it refused, else why.
pub proof fn what_the_end_of_a_relay_says(
    module_id: &str,
    end: RelayEnd,
    policy: &BreakerPolicy,
    budget: &Span,
    corr: u64,
    now: u128,
)
    ensures
        forall|c: &mut RouteBindConcurrency, b: &mut RouteBindBreakers, r: RelaySettlement|
            #[trigger] call_ensures(
                settle_relay,
                (c, b, module_id, end, policy, budget, corr, now),
                r,
            ) ==> {
                let told = r.answer;
                &&& end is Accepted || end is HandlerDropped ==> told is Silent
                &&& end matches RelayEnd::EncodeFailed(text) ==> (
                told matches RelayAnswer::Fault(fault) && faults(
                    fault,
                    corr,
                    "failed to encode route.bind request: "@ + text@,
                ))
                &&& end matches RelayEnd::BuildFailed(text) ==> (
                told matches RelayAnswer::Fault(RouterError::FrameBuild(said)) && said@ == text@)
                &&& end matches RelayEnd::MarkFailed(err) ==> told == RelayAnswer::Fault(
                    RouterError::Forwarding(err),
                )
                &&& end matches RelayEnd::SendFailed(text) ==> (
                told matches RelayAnswer::Refused(refusal) && refuses(
                    refusal,
                    "target_unavailable"@,
                    text@,
                ))
                &&& end matches RelayEnd::ModuleGone(text) ==> (
                told matches RelayAnswer::Refused(refusal) && refuses(
                    refusal,
                    "target_unavailable"@,
                    text@,
                ))
                &&& end matches RelayEnd::Rejected(body) ==> (
                told matches RelayAnswer::Refused(refusal) && refusal.counter
                    == RefusalCounter::ModuleRejected && refusal.body@ == body@)
                &&& end is WaiterCanceled ==> (told matches RelayAnswer::Refused(refusal)
                    && refuses(
                    refusal,
                    "target_unavailable"@,
                    "route.bind relay waiter was canceled before the module responded"@,
                ))
                &&& end is TimedOut ==> (told matches RelayAnswer::Refused(refusal) && refuses(
                    refusal,
                    "module_timeout"@,
                    "module_id '"@ + module_id@ + "' did not answer route.bind within "@
                        + duration_words(budget@),
                ))
            },
{
}

/// A relay that could not begin is refused in the words of the failure, under the code
/// of its kind.
pub proof fn a_relay_that_could_not_begin_says_why(
    module_id: &str,
    failure: crate::control::fault::ForwardingFailure,
    policy: &BreakerPolicy,
    budget: &Span,
    corr: u64,
    now: u128,
)
    ensures
        forall|c: &mut RouteBindConcurrency, b: &mut RouteBindBreakers, r: RelaySettlement|
            #[trigger] call_ensures(
                settle_relay,
                (
                    c,
                    b,
                    module_id,
                    RelayEnd::BeginFailed(failure),
                    policy,
                    budget,
                    corr,
                    now,
                ),
                r,
            ) ==> (r.answer matches RelayAnswer::Refused(refusal) && {
                let text = failure.text@;
                &&& failure.error is NoModuleConnection || failure.error is StaleModuleEndpoint
                    || failure.error is UnknownReservation || failure.error is ConnectionClosing
                    || failure.error is ClientEgressClosed ==> refuses(
                    refusal,
                    "target_unavailable"@,
                    text,
                )
                &&& failure.error is ModuleReloading ==> refuses(
                    refusal,
                    "module_reloading"@,
                    text,
                )
                &&& failure.error is ClientRouteChannelExhausted
                    || failure.error is ModuleRouteChannelExhausted ==> refuses(
                    refusal,
                    "route_limit"@,
                    text,
                )
                &&& failure.error is RelayCorrelationExhausted || failure.error is RouteOpenBuild
                    || failure.error is Poisoned ==> refuses(refusal, "forwarding_error"@, text)
            }),
{
}

/// A forwarding failure goes by the code of its kind.
pub proof fn a_forwarding_failure_goes_by_its_code(err: &ForwardingError, r: &'static str)
    requires
        call_ensures(forwarding_error_code, (err,), r),
    ensures
        err is ModuleReloading ==> r@ == "module_reloading"@,
        err is NoModuleConnection || err is StaleModuleEndpoint || err is UnknownReservation
            || err is ConnectionClosing || err is ClientEgressClosed ==> r@
            == "target_unavailable"@,
        err is ClientRouteChannelExhausted || err is ModuleRouteChannelExhausted ==> r@
            == "route_limit"@,
        err is RelayCorrelationExhausted || err is RouteOpenBuild || err is Poisoned ==> r@
            == "forwarding_error"@,
{
}

/// A request that is dropped while it is out takes its exchange with it; one that was
/// disarmed leaves it.
pub proof fn a_dropped_request_takes_its_exchange(endpoint: ModuleEndpointId, corr: u64)
    ensures
        forall|g: ModuleControlRpcGuard, r: Option<PendingExchange>|
            #![trigger call_ensures(ModuleControlRpcGuard::new, (endpoint, corr), g), call_ensures(
                ModuleControlRpcGuard::on_drop,
                (&g,),
                r,
            )]
            call_ensures(ModuleControlRpcGuard::new, (endpoint, corr), g) && call_ensures(
                ModuleControlRpcGuard::on_drop,
                (&g,),
                r,
            ) ==> (r matches Some(pending) && pending.endpoint == endpoint && pending.corr == corr),
        forall|g: &mut ModuleControlRpcGuard, u: (), r: Option<PendingExchange>|
            #![trigger call_ensures(ModuleControlRpcGuard::disarm, (g,), u), call_ensures(
                ModuleControlRpcGuard::on_drop,
                (&*final(g),),
                r,
            )]
            call_ensures(ModuleControlRpcGuard::disarm, (g,), u) && call_ensures(
                ModuleControlRpcGuard::on_drop,
                (&*final(g),),
                r,
            ) ==> r is None,
{
}

/// A reservation is released once: the first time with its exchange, never again, and
/// not at all once it was disarmed.
pub proof fn a_reservation_is_released_once(endpoint: ModuleEndpointId, corr: u64)
    ensures
        forall|fresh: RouteBindReservationGuard, g: &mut RouteBindReservationGuard, r: Option<
            PendingExchange,
        >|
            #![trigger call_ensures(RouteBindReservationGuard::new, (endpoint, corr), fresh), call_ensures(
                RouteBindReservationGuard::release_and_disarm,
                (g,),
                r,
            )]
            call_ensures(RouteBindReservationGuard::new, (endpoint, corr), fresh) && *g == fresh
                && call_ensures(RouteBindReservationGuard::release_and_disarm, (g,), r) ==> (
            r matches Some(pending) && pending.endpoint == endpoint && pending.corr == corr)
                && !(*final(g)).armed(),
        forall|g: &mut RouteBindReservationGuard, r: Option<PendingExchange>| #[trigger]
            call_ensures(RouteBindReservationGuard::release_and_disarm, (g,), r) && !(*g).armed()
                ==> r is None,
        forall|g: &mut RouteBindReservationGuard, u: ()| #[trigger]
            call_ensures(RouteBindReservationGuard::disarm, (g,), u) ==> !(*final(g)).armed(),
{
}

proof fn rows_stand_in_the_order_of_the_ids(
    m: Map<Seq<char>, ModuleBreakerState>,
    keys: Seq<Seq<char>>,
    now: nat,
    j: int,
    k: int,
)
    requires
        ascending(keys),
        0 <= j < k < open_rows(m, keys, now).len(),
    ensures
        before(open_rows(m, keys, now)[j].module_id, open_rows(m, keys, now)[k].module_id),
    decreases keys.len(),
{
    let rest = keys.drop_last();
    let rows = open_rows(m, keys, now);
    let was = open_rows(m, rest, now);
    assert forall|a: int, b: int| 0 <= a < b < rest.len() implies before(
        #[trigger] rest[a],
        #[trigger] rest[b],
    ) by {
        assert(rest[a] == keys[a] && rest[b] == keys[b]);
    }
    if k < was.len() {
        rows_stand_in_the_order_of_the_ids(m, rest, now, j, k);
        assert(rows[j] == was[j] && rows[k] == was[k]);
    } else {
        rows_are_the_open_breakers(m, rest, now, j, keys.last());
        assert(rows[j] == was[j]);
        let n = choose|n: int| 0 <= n < rest.len() && rest[n] == was[j].module_id;
        assert(keys[n] == was[j].module_id);
        assert(keys[keys.len() - 1] == keys.last());
    }
}

/// The rows of the snapshot stand in the order of the modules' ids, each module once.
pub proof fn a_snapshot_is_in_the_order_of_the_ids(
    b: &RouteBindBreakers,
    now: u128,
    r: Option<Vec<OpenBreaker>>,
    j: int,
    k: int,
)
    requires
        call_ensures(RouteBindBreakers::open_snapshot, (b, now), r),
        b.wf(),
        r is Some,
        0 <= j < k < r->0@.len(),
    ensures
        before(r->0@[j].module_id@, r->0@[k].module_id@),
{
    b.ids_are_the_domain();
    let rows = r->0@;
    let views = rows.map_values(|o: OpenBreaker| o@);
    assert(views == open_rows(b@, b.ids(), now as nat));
    assert(views.len() == rows.len());
    rows_stand_in_the_order_of_the_ids(b@, b.ids(), now as nat, j, k);
    assert(views[j] == rows[j]@ && views[k] == rows[k]@);
}

} // verus!
