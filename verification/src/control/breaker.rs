//! The circuit breaker around the `route.bind` relay, one state for each target
//! module.
//!
//! A module that lets bind after bind run into its whole budget is not asked
//! again until a cooldown has passed, and then by one probe alone. What is
//! recorded of a module is empty while it behaves: an entry appears with its
//! first timeout and goes with the next accepted bind, or when the module
//! connects anew.
//!
//! Moments are nanoseconds on the daemon's monotonic clock.
use crate::span::{Span, NANOS_PER_MILLI, SPAN_LIMIT};
use crate::text_map::{ascending, TextMap};
use vstd::prelude::*;

verus! {

/// Consecutive relay timeouts that open a module's breaker.
pub const DEFAULT_ROUTE_BIND_BREAKER_THRESHOLD: u32 = 3;

/// How many seconds a breaker stays open before one probe is let through.
pub const DEFAULT_ROUTE_BIND_BREAKER_COOLDOWN_SECS: u64 = 20;

/// What is recorded of one module.
#[derive(Clone, Copy, Debug, PartialEq, Eq, Structural)]
pub struct ModuleBreakerState {
    /// Relay timeouts with no accepted relay in between.
    pub consecutive_timeouts: u32,
    /// Set while the breaker is open: the moment from which one arrival may
    /// probe.
    pub cooldown_until: Option<u128>,
    /// A probe has been let through and has not settled yet.
    pub probe_in_flight: bool,
}

/// The recorded states by module id.
pub type BreakerMap = Map<Seq<char>, ModuleBreakerState>;

/// What the breaker decides of one `route.open`, before any relay work.
#[derive(Clone, Copy, Debug)]
pub enum RouteBindAdmission {
    Admitted {
        /// This open is the one probe of an open breaker.
        probe: bool,
    },
    Refused {
        consecutive_timeouts: u32,
        /// What is left of the cooldown; nothing while the probe is in flight.
        retry_in: Span,
        probe_in_flight: bool,
    },
}

/// A [`RouteBindAdmission`] with its wait in nanoseconds.
pub enum AdmissionView {
    Admitted { probe: bool },
    Refused { consecutive_timeouts: u32, retry_in: nat, probe_in_flight: bool },
}

impl View for RouteBindAdmission {
    type V = AdmissionView;

    open spec fn view(&self) -> AdmissionView {
        match *self {
            RouteBindAdmission::Admitted { probe } => AdmissionView::Admitted { probe },
            RouteBindAdmission::Refused { consecutive_timeouts, retry_in, probe_in_flight } =>
                AdmissionView::Refused { consecutive_timeouts, retry_in: retry_in@, probe_in_flight },
        }
    }
}

/// The breaker moved to open.
#[derive(Clone, Copy, Debug, PartialEq, Eq, Structural)]
pub struct BreakerOpened {
    pub consecutive_timeouts: u32,
    /// A failed probe opened an already open breaker again.
    pub reopened_after_probe: bool,
}

/// How the breaker answers an open to `id` at `now`.
pub open spec fn admission(m: BreakerMap, id: Seq<char>, now: nat) -> AdmissionView {
    if !m.dom().contains(id) {
        AdmissionView::Admitted { probe: false }
    } else {
        match m[id].cooldown_until {
            None => AdmissionView::Admitted { probe: false },
            Some(until) => if m[id].probe_in_flight {
                AdmissionView::Refused {
                    consecutive_timeouts: m[id].consecutive_timeouts,
                    retry_in: 0,
                    probe_in_flight: true,
                }
            } else if now < until {
                AdmissionView::Refused {
                    consecutive_timeouts: m[id].consecutive_timeouts,
                    retry_in: (until - now) as nat,
                    probe_in_flight: false,
                }
            } else {
                AdmissionView::Admitted { probe: true }
            },
        }
    }
}

/// What is recorded after that answer: a probe takes the one slot.
pub open spec fn after_admission(m: BreakerMap, id: Seq<char>, now: nat) -> BreakerMap {
    match admission(m, id, now) {
        AdmissionView::Admitted { probe: true } => m.insert(
            id,
            ModuleBreakerState { probe_in_flight: true, ..m[id] },
        ),
        _ => m,
    }
}

/// One more, but no more than a counter holds.
pub open spec fn one_more(n: u32) -> u32 {
    if n == u32::MAX {
        n
    } else {
        (n + 1) as u32
    }
}

/// The state recorded of `id`, or the state of a module of which nothing is
/// recorded.
pub open spec fn state_of(m: BreakerMap, id: Seq<char>) -> ModuleBreakerState {
    if m.dom().contains(id) {
        m[id]
    } else {
        ModuleBreakerState { consecutive_timeouts: 0, cooldown_until: None, probe_in_flight: false }
    }
}

/// What is recorded after a relay to `id` ran into its budget at `now`.
pub open spec fn after_timeout(
    m: BreakerMap,
    id: Seq<char>,
    threshold: u32,
    cooldown: nat,
    now: nat,
) -> BreakerMap {
    let was = state_of(m, id);
    let count = one_more(was.consecutive_timeouts);
    m.insert(
        id,
        ModuleBreakerState {
            consecutive_timeouts: count,
            cooldown_until: if count < threshold {
                was.cooldown_until
            } else {
                Some((now + cooldown) as u128)
            },
            probe_in_flight: false,
        },
    )
}

/// The opening that the timeout reports, where it brings the count to the
/// threshold.
pub open spec fn opening(m: BreakerMap, id: Seq<char>, threshold: u32) -> Option<BreakerOpened> {
    let was = state_of(m, id);
    let count = one_more(was.consecutive_timeouts);
    if count < threshold {
        None
    } else {
        Some(
            BreakerOpened {
                consecutive_timeouts: count,
                reopened_after_probe: was.cooldown_until is Some && was.probe_in_flight,
            },
        )
    }
}

/// What is recorded after a relay to `id` settled without saying anything of the
/// module's speed: only the probe slot is free again.
pub open spec fn after_inconclusive(m: BreakerMap, id: Seq<char>) -> BreakerMap {
    if m.dom().contains(id) {
        m.insert(id, ModuleBreakerState { probe_in_flight: false, ..m[id] })
    } else {
        m
    }
}

/// One open breaker, as an operator reads it.
#[derive(Debug)]
pub struct OpenBreaker {
    pub module_id: String,
    pub consecutive_timeouts: u32,
    pub cooldown_remaining_ms: u64,
    pub probe_in_flight: bool,
}

/// An [`OpenBreaker`] over characters.
#[verifier::ext_equal]
pub struct OpenBreakerView {
    pub module_id: Seq<char>,
    pub consecutive_timeouts: u32,
    pub cooldown_remaining_ms: u64,
    pub probe_in_flight: bool,
}

impl View for OpenBreaker {
    type V = OpenBreakerView;

    open spec fn view(&self) -> OpenBreakerView {
        OpenBreakerView {
            module_id: self.module_id@,
            consecutive_timeouts: self.consecutive_timeouts,
            cooldown_remaining_ms: self.cooldown_remaining_ms,
            probe_in_flight: self.probe_in_flight,
        }
    }
}

/// The rows of the open breakers among `keys`, in their order.
pub open spec fn open_rows(m: BreakerMap, keys: Seq<Seq<char>>, now: nat) -> Seq<OpenBreakerView>
    decreases keys.len(),
{
    if keys.len() == 0 {
        Seq::empty()
    } else {
        let before = open_rows(m, keys.drop_last(), now);
        let s = m[keys.last()];
        match s.cooldown_until {
            None => before,
            Some(until) => before.push(
                OpenBreakerView {
                    module_id: keys.last(),
                    consecutive_timeouts: s.consecutive_timeouts,
                    cooldown_remaining_ms: remaining_ms(until as nat, now),
                    probe_in_flight: s.probe_in_flight,
                },
            ),
        }
    }
}

/// The whole milliseconds from `now` to `until`, none when it has passed, counted
/// modulo 2^64.
pub open spec fn remaining_ms(until: nat, now: nat) -> u64 {
    if now < until {
        ((((until - now) as nat) / (NANOS_PER_MILLI as nat)) % 0x1_0000_0000_0000_0000) as u64
    } else {
        0
    }
}

/// The breakers of all target modules.
#[derive(Debug)]
pub struct RouteBindBreakers {
    modules: TextMap<ModuleBreakerState>,
}

impl View for RouteBindBreakers {
    type V = BreakerMap;

    closed spec fn view(&self) -> BreakerMap {
        self.modules@
    }
}

impl RouteBindBreakers {
    /// The keys are in order, and no cooldown ends later than a span reaches.
    pub closed spec fn wf(&self) -> bool {
        &&& self.modules.wf()
        &&& forall|id: Seq<char>| #[trigger]
            self.modules@.dom().contains(id) ==> (self.modules@[id].cooldown_until matches Some(
                until,
            ) ==> until < SPAN_LIMIT)
    }

    /// The module ids of which something is recorded, in order.
    pub closed spec fn ids(&self) -> Seq<Seq<char>> {
        self.modules.keys()
    }

    /// The ids ascend and are those of which something is recorded.
    pub proof fn ids_are_the_domain(&self)
        requires
            self.wf(),
        ensures
            ascending(self.ids()),
            forall|id: Seq<char>| self.ids().contains(id) <==> #[trigger] self@.dom().contains(id),
    {
        self.modules.keys_are_the_domain();
    }

    /// Nothing recorded.
    pub fn new() -> (r: RouteBindBreakers)
        ensures
            r.wf(),
            r@ == BreakerMap::empty(),
    {
        RouteBindBreakers { modules: TextMap::new() }
    }

    /// Decides whether an open to the module may attempt its relay.
    pub fn admit_open(&mut self, module_id: &str, now: u128) -> (r: RouteBindAdmission)
        requires
            old(self).wf(),
        ensures
            final(self).wf(),
            r@ == admission(old(self)@, module_id@, now as nat),
            final(self)@ == after_admission(old(self)@, module_id@, now as nat),
    {
        let state: ModuleBreakerState = match self.modules.get(module_id) {
            Some(state) => *state,
            None => {
                return RouteBindAdmission::Admitted { probe: false };
            },
        };
        let cooldown_until: u128 = match state.cooldown_until {
            Some(until) => until,
            None => {
                return RouteBindAdmission::Admitted { probe: false };
            },
        };
        if state.probe_in_flight {
            return RouteBindAdmission::Refused {
                consecutive_timeouts: state.consecutive_timeouts,
                retry_in: Span::zero(),
                probe_in_flight: true,
            };
        }
        if now < cooldown_until {
            return RouteBindAdmission::Refused {
                consecutive_timeouts: state.consecutive_timeouts,
                retry_in: Span::from_nanos(cooldown_until - now),
                probe_in_flight: false,
            };
        }
        self.modules.insert(
            module_id,
            ModuleBreakerState {
                consecutive_timeouts: state.consecutive_timeouts,
                cooldown_until: state.cooldown_until,
                probe_in_flight: true,
            },
        );
        RouteBindAdmission::Admitted { probe: true }
    }

    /// The module took the bind within its budget: what was recorded of it goes.
    /// Says whether this closed an open breaker.
    pub fn record_accepted(&mut self, module_id: &str) -> (r: bool)
        requires
            old(self).wf(),
        ensures
            final(self).wf(),
            final(self)@ == old(self)@.remove(module_id@),
            r == (old(self)@.dom().contains(module_id@) && old(self)@[module_id@].cooldown_until is Some),
    {
        match self.modules.remove(module_id) {
            Some(state) => state.cooldown_until.is_some(),
            None => false,
        }
    }

    /// The relay ran into its budget with no answer. Reports the opening where
    /// this brings the count to the threshold.
    pub fn record_timeout(
        &mut self,
        module_id: &str,
        threshold: u32,
        cooldown: &Span,
        now: u128,
    ) -> (r: Option<BreakerOpened>)
        requires
            old(self).wf(),
            now + cooldown@ < SPAN_LIMIT,
        ensures
            final(self).wf(),
            final(self)@ == after_timeout(old(self)@, module_id@, threshold, cooldown@, now as nat),
            r == opening(old(self)@, module_id@, threshold),
    {
        let was: ModuleBreakerState = match self.modules.get(module_id) {
            Some(state) => *state,
            None => ModuleBreakerState {
                consecutive_timeouts: 0,
                cooldown_until: None,
                probe_in_flight: false,
            },
        };
        let count: u32 = if was.consecutive_timeouts == u32::MAX {
            u32::MAX
        } else {
            was.consecutive_timeouts + 1
        };
        let opened: bool = count >= threshold;
        let cooldown_until: Option<u128> = if opened {
            Some(now + cooldown.as_nanos())
        } else {
            was.cooldown_until
        };
        self.modules.insert(
            module_id,
            ModuleBreakerState {
                consecutive_timeouts: count,
                cooldown_until,
                probe_in_flight: false,
            },
        );
        if !opened {
            return None;
        }
        Some(
            BreakerOpened {
                consecutive_timeouts: count,
                reopened_after_probe: was.cooldown_until.is_some() && was.probe_in_flight,
            },
        )
    }

    /// The relay settled in a way that says nothing of the module's speed: it
    /// rejected the bind, its connection went, or the waiter was cancelled.
    pub fn record_inconclusive(&mut self, module_id: &str)
        requires
            old(self).wf(),
        ensures
            final(self).wf(),
            final(self)@ == after_inconclusive(old(self)@, module_id@),
    {
        let state: ModuleBreakerState = match self.modules.get(module_id) {
            Some(state) => *state,
            None => {
                return;
            },
        };
        self.modules.insert(
            module_id,
            ModuleBreakerState {
                consecutive_timeouts: state.consecutive_timeouts,
                cooldown_until: state.cooldown_until,
                probe_in_flight: false,
            },
        );
    }

    /// A new connection of the module: what was recorded speaks of a process that
    /// is gone. Hands back the discarded count unless it is zero.
    pub fn reset_for_new_module_connection(&mut self, module_id: &str) -> (r: Option<u32>)
        requires
            old(self).wf(),
        ensures
            final(self).wf(),
            final(self)@ == old(self)@.remove(module_id@),
            r == (if state_of(old(self)@, module_id@).consecutive_timeouts > 0 {
                Some(state_of(old(self)@, module_id@).consecutive_timeouts)
            } else {
                None
            }),
    {
        match self.modules.remove(module_id) {
            Some(state) => if state.consecutive_timeouts > 0 {
                Some(state.consecutive_timeouts)
            } else {
                None
            },
            None => None,
        }
    }

    /// The open breakers, in the order of their module ids; nothing where none is
    /// open.
    pub fn open_snapshot(&self, now: u128) -> (r: Option<Vec<OpenBreaker>>)
        requires
            self.wf(),
        ensures
            r is Some <==> open_rows(self@, self.ids(), now as nat).len() > 0,
            r matches Some(rows) ==> rows@.map_values(|o: OpenBreaker| o@) == open_rows(
                self@,
                self.ids(),
                now as nat,
            ),
    {
        let mut rows: Vec<OpenBreaker> = Vec::new();
        let mut i: usize = 0;
        while i < self.modules.len()
            invariant
                self.wf(),
                i <= self.ids().len(),
                rows@.map_values(|o: OpenBreaker| o@) == open_rows(
                    self@,
                    self.ids().take(i as int),
                    now as nat,
                ),
            decreases self.ids().len() - i,
        {
            let ghost seen = rows@;
            proof {
                assert(self.ids().take(i + 1).drop_last() =~= self.ids().take(i as int));
                assert(self.ids().take(i + 1).last() == self.ids()[i as int]);
            }
            let state: ModuleBreakerState = *self.modules.value_at(i);
            if let Some(until) = state.cooldown_until {
                let left: u128 = if now < until {
                    until - now
                } else {
                    0
                };
                let row = OpenBreaker {
                    module_id: self.modules.key_at(i).clone(),
                    consecutive_timeouts: state.consecutive_timeouts,
                    cooldown_remaining_ms: Span::from_nanos(left).as_millis(),
                    probe_in_flight: state.probe_in_flight,
                };
                rows.push(row);
                proof {
                    assert(rows@.map_values(|o: OpenBreaker| o@) =~= seen.map_values(
                        |o: OpenBreaker| o@,
                    ).push(row@));
                }
            }
            i += 1;
        }
        proof {
            assert(self.ids().take(i as int) =~= self.ids());
        }
        if rows.len() == 0 {
            proof {
                assert(rows@.map_values(|o: OpenBreaker| o@).len() == 0);
            }
            None
        } else {
            proof {
                assert(rows@.map_values(|o: OpenBreaker| o@).len() > 0);
            }
            Some(rows)
        }
    }
}

/// Something that happens to the breaker of one module.
pub enum BreakerEvent {
    /// A `route.open` asks at this moment.
    Open { now: nat },
    /// A relay was accepted.
    Accepted,
    /// A relay ran into its budget at this moment.
    Timeout { now: nat },
    /// A relay settled in any other way, or its handler was dropped.
    Inconclusive,
    /// The module connected anew.
    Reconnected,
}

/// What is recorded after one event.
pub open spec fn after_event(
    m: BreakerMap,
    id: Seq<char>,
    threshold: u32,
    cooldown: nat,
    e: BreakerEvent,
) -> BreakerMap {
    match e {
        BreakerEvent::Open { now } => after_admission(m, id, now),
        BreakerEvent::Accepted => m.remove(id),
        BreakerEvent::Timeout { now } => after_timeout(m, id, threshold, cooldown, now),
        BreakerEvent::Inconclusive => after_inconclusive(m, id),
        BreakerEvent::Reconnected => m.remove(id),
    }
}

/// What is recorded after the events, one after the other, starting with nothing.
pub open spec fn history(
    id: Seq<char>,
    threshold: u32,
    cooldown: nat,
    events: Seq<BreakerEvent>,
) -> BreakerMap
    decreases events.len(),
{
    if events.len() == 0 {
        BreakerMap::empty()
    } else {
        after_event(
            history(id, threshold, cooldown, events.drop_last()),
            id,
            threshold,
            cooldown,
            events.last(),
        )
    }
}

/// The timeouts since the last accepted relay or new connection.
pub open spec fn timeouts_in_a_row(events: Seq<BreakerEvent>) -> nat
    decreases events.len(),
{
    if events.len() == 0 {
        0
    } else {
        match events.last() {
            BreakerEvent::Accepted => 0,
            BreakerEvent::Reconnected => 0,
            BreakerEvent::Timeout { .. } => timeouts_in_a_row(events.drop_last()) + 1,
            _ => timeouts_in_a_row(events.drop_last()),
        }
    }
}

/// After any history the count is that of the timeouts in a row, as far as a
/// counter reaches; nothing is recorded while there is none; and the breaker is
/// open exactly when they have reached the threshold.
pub proof fn only_timeouts_in_a_row_open_the_breaker(
    id: Seq<char>,
    threshold: u32,
    cooldown: nat,
    events: Seq<BreakerEvent>,
)
    requires
        threshold >= 1,
    ensures
        ({
            let m = history(id, threshold, cooldown, events);
            let n = timeouts_in_a_row(events);
            &&& state_of(m, id).consecutive_timeouts == (if n <= u32::MAX {
                n
            } else {
                u32::MAX as nat
            })
            &&& m.dom().contains(id) <==> n > 0
            &&& state_of(m, id).cooldown_until is Some <==> n >= threshold
        }),
    decreases events.len(),
{
    if events.len() > 0 {
        only_timeouts_in_a_row_open_the_breaker(id, threshold, cooldown, events.drop_last());
    }
}

/// When the last of the timeouts came.
pub open spec fn last_timeout(events: Seq<BreakerEvent>) -> nat
    decreases events.len(),
{
    if events.len() == 0 {
        0
    } else {
        match events.last() {
            BreakerEvent::Timeout { now } => now,
            _ => last_timeout(events.drop_last()),
        }
    }
}

proof fn the_cooldown_starts_at_the_last_timeout(
    id: Seq<char>,
    threshold: u32,
    cooldown: nat,
    events: Seq<BreakerEvent>,
)
    requires
        threshold >= 1,
        timeouts_in_a_row(events) >= threshold,
    ensures
        state_of(history(id, threshold, cooldown, events), id).cooldown_until == Some(
            (last_timeout(events) + cooldown) as u128,
        ),
    decreases events.len(),
{
    let before = events.drop_last();
    only_timeouts_in_a_row_open_the_breaker(id, threshold, cooldown, before);
    if !(events.last() is Timeout) {
        the_cooldown_starts_at_the_last_timeout(id, threshold, cooldown, before);
    }
}

/// Once the timeouts in a row have reached the threshold, the breaker refuses every
/// open until the cooldown after the last of them is over, and from then on lets one
/// probe through at a time. The end of the cooldown is one that the clock can tell.
pub proof fn an_open_breaker_stays_shut_for_its_cooldown(
    id: Seq<char>,
    threshold: u32,
    cooldown: nat,
    events: Seq<BreakerEvent>,
    now: nat,
)
    requires
        threshold >= 1,
        timeouts_in_a_row(events) >= threshold,
        last_timeout(events) + cooldown <= u128::MAX,
    ensures
        ({
            let m = history(id, threshold, cooldown, events);
            let until = last_timeout(events) + cooldown;
            &&& now < until ==> admission(m, id, now) is Refused
            &&& now >= until ==> if state_of(m, id).probe_in_flight {
                admission(m, id, now) is Refused
            } else {
                admission(m, id, now) == AdmissionView::Admitted { probe: true }
            }
        }),
{
    only_timeouts_in_a_row_open_the_breaker(id, threshold, cooldown, events);
    the_cooldown_starts_at_the_last_timeout(id, threshold, cooldown, events);
}

/// With fewer timeouts in a row than the threshold every open is let through.
pub proof fn a_closed_breaker_refuses_nobody(
    id: Seq<char>,
    threshold: u32,
    cooldown: nat,
    events: Seq<BreakerEvent>,
    now: nat,
)
    requires
        threshold >= 1,
        timeouts_in_a_row(events) < threshold,
    ensures
        admission(history(id, threshold, cooldown, events), id, now) == (AdmissionView::Admitted {
            probe: false,
        }),
{
    only_timeouts_in_a_row_open_the_breaker(id, threshold, cooldown, events);
}

/// Events of one module leave what is recorded of every other as it was.
pub proof fn modules_do_not_share_a_breaker(
    m: BreakerMap,
    id: Seq<char>,
    other: Seq<char>,
    threshold: u32,
    cooldown: nat,
    e: BreakerEvent,
)
    requires
        id != other,
    ensures
        ({
            let after = after_event(m, id, threshold, cooldown, e);
            &&& after.dom().contains(other) <==> m.dom().contains(other)
            &&& m.dom().contains(other) ==> after[other] == m[other]
        }),
{
}

/// While a probe is in flight every further open is refused, whenever it comes,
/// and the refusal changes nothing. So one cooldown lets one probe through.
pub proof fn one_probe_at_a_time(m: BreakerMap, id: Seq<char>, now: nat, later: nat)
    requires
        admission(m, id, now) == (AdmissionView::Admitted { probe: true }),
    ensures
        ({
            let probing = after_admission(m, id, now);
            &&& admission(probing, id, later) == (AdmissionView::Refused {
                consecutive_timeouts: m[id].consecutive_timeouts,
                retry_in: 0,
                probe_in_flight: true,
            })
            &&& after_admission(probing, id, later) == probing
        }),
{
}

/// A refused open changes nothing that is recorded.
pub proof fn a_refusal_changes_nothing(m: BreakerMap, id: Seq<char>, now: nat)
    requires
        admission(m, id, now) is Refused,
    ensures
        after_admission(m, id, now) == m,
{
}

/// An abandoned probe gives its slot back and nothing else: the next open is let
/// through as a probe again.
pub proof fn an_abandoned_probe_frees_its_slot(m: BreakerMap, id: Seq<char>, now: nat)
    requires
        admission(m, id, now) == (AdmissionView::Admitted { probe: true }),
    ensures
        after_inconclusive(after_admission(m, id, now), id) == m,
{
    assert(after_inconclusive(after_admission(m, id, now), id) =~= m);
}

/// A timed-out probe opens the breaker again for a whole cooldown; an accepted
/// one forgets the module.
pub proof fn a_probe_settles_the_breaker(
    m: BreakerMap,
    id: Seq<char>,
    threshold: u32,
    cooldown: nat,
    now: nat,
    settled: nat,
    later: nat,
)
    requires
        admission(m, id, now) == (AdmissionView::Admitted { probe: true }),
        m[id].consecutive_timeouts >= threshold,
        settled + cooldown < SPAN_LIMIT,
        settled <= later < settled + cooldown,
    ensures
        ({
            let probing = after_admission(m, id, now);
            &&& admission(after_timeout(probing, id, threshold, cooldown, settled), id, later)
                is Refused
            &&& opening(probing, id, threshold) matches Some(o) && o.reopened_after_probe
            &&& admission(probing.remove(id), id, later) == (AdmissionView::Admitted {
                probe: false,
            })
        }),
{
}

} // verus!
