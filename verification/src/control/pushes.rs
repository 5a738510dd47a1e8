//! Telling peers that routes are gone, and what follows where they cannot be
//! told.
use crate::control::fault::{backend, backend_fault, FaultView, ForwardingError, RouterError};
use crate::control::wire::{
    control_flags, goodbye, goodbye_header, FrameFlags, FrameHeader, FrameType,
};
use crate::text::{decimal, decimal_text, text_option};
use vstd::prelude::*;

verus! {

/// Why a route was closed.
#[derive(Clone, Copy, Debug, PartialEq, Eq, Structural)]
pub enum RouteCloseReason {
    Crash,
    CapabilityDenied,
}

/// The push by which a client learns that its routes to a module are gone.
#[derive(Debug)]
pub struct RouteClosed {
    pub module_id: String,
    pub reason: RouteCloseReason,
    pub drained: bool,
    pub abandoned: u32,
    pub excluded_subscriptions: u32,
    /// Whether the module stays away. Absent where nobody says.
    pub terminal: Option<bool>,
}

/// A [`RouteClosed`] over characters.
#[verifier::ext_equal]
pub struct RouteClosedView {
    pub module_id: Seq<char>,
    pub reason: RouteCloseReason,
    pub drained: bool,
    pub abandoned: u32,
    pub excluded_subscriptions: u32,
    pub terminal: Option<bool>,
}

impl View for RouteClosed {
    type V = RouteClosedView;

    open spec fn view(&self) -> RouteClosedView {
        RouteClosedView {
            module_id: self.module_id@,
            reason: self.reason,
            drained: self.drained,
            abandoned: self.abandoned,
            excluded_subscriptions: self.excluded_subscriptions,
            terminal: self.terminal,
        }
    }
}

/// What is told of routes that were cut without a drain.
pub open spec fn cut(module_id: Seq<char>, reason: RouteCloseReason, terminal: bool)
    -> RouteClosedView {
    RouteClosedView {
        module_id,
        reason,
        drained: false,
        abandoned: 0,
        excluded_subscriptions: 0,
        terminal: Some(terminal),
    }
}

/// The push for routes that were cut without a drain.
pub fn route_closed(module_id: &str, reason: RouteCloseReason, terminal: bool) -> (r: RouteClosed)
    ensures
        r@ == cut(module_id@, reason, terminal),
{
    RouteClosed {
        module_id: module_id.to_owned(),
        reason,
        drained: false,
        abandoned: 0,
        excluded_subscriptions: 0,
        terminal: Some(terminal),
    }
}

/// One end of a route that is told that it is gone.
#[derive(Debug)]
pub struct GoodbyeTarget {
    pub connection_id: u64,
    pub channel: u16,
    pub epoch: u32,
    pub negotiated_ver: u8,
    /// Present at a module's end.
    pub module_id: Option<String>,
    /// The end is a client's, whose connection holds no other party's routes.
    pub close_on_delivery_failure: bool,
}

/// An earlier element equals the one at `i`.
pub open spec fn seen_before(connections: Seq<u64>, i: int) -> bool {
    exists|j: int| 0 <= j < i && connections[j] == connections[i]
}

/// The places at which a connection stands first, in order.
pub open spec fn firsts(connections: Seq<u64>) -> Seq<int>
    decreases connections.len(),
{
    if connections.len() == 0 {
        Seq::empty()
    } else {
        let before = firsts(connections.drop_last());
        if seen_before(connections, connections.len() - 1) {
            before
        } else {
            before.push(connections.len() - 1)
        }
    }
}

/// The connections of the targets.
pub open spec fn connections_of(targets: Seq<GoodbyeTarget>) -> Seq<u64> {
    targets.map_values(|t: GoodbyeTarget| t.connection_id)
}

/// The places as integers.
pub open spec fn as_ints(places: Seq<usize>) -> Seq<int> {
    places.map_values(|p: usize| p as int)
}

fn stands_earlier(targets: &Vec<GoodbyeTarget>, i: usize) -> (r: bool)
    requires
        i < targets.len(),
    ensures
        r == seen_before(connections_of(targets@), i as int),
{
    let ghost all = connections_of(targets@);
    let mut j: usize = 0;
    while j < i
        invariant
            j <= i,
            i < targets.len(),
            all == connections_of(targets@),
            forall|k: int| 0 <= k < j ==> all[k] != all[i as int],
        decreases i - j,
    {
        if targets[j].connection_id == targets[i].connection_id {
            proof {
                assert(all[j as int] == all[i as int]);
            }
            return true;
        }
        proof {
            assert(all[j as int] == targets@[j as int].connection_id);
        }
        j += 1;
    }
    false
}

/// The places of the targets that are pushed to: one for each connection, the
/// first, however many routes it holds.
pub fn push_targets(targets: &Vec<GoodbyeTarget>) -> (r: Vec<usize>)
    ensures
        as_ints(r@) == firsts(connections_of(targets@)),
{
    let ghost all = connections_of(targets@);
    let mut r: Vec<usize> = Vec::new();
    let mut i: usize = 0;
    proof {
        assert(as_ints(r@) =~= Seq::empty());
    }
    while i < targets.len()
        invariant
            i <= targets.len(),
            all == connections_of(targets@),
            as_ints(r@) == firsts(all.take(i as int)),
        decreases targets.len() - i,
    {
        let ghost was = r@;
        let earlier: bool = stands_earlier(targets, i);
        proof {
            let now = all.take(i + 1);
            assert(now.drop_last() =~= all.take(i as int));
            assert(seen_before(now, i as int) == seen_before(all, i as int)) by {
                assert forall|j: int| 0 <= j < i implies now[j] == all[j] by {}
                if seen_before(all, i as int) {
                    let j = choose|j: int| 0 <= j < i && all[j] == all[i as int];
                    assert(now[j] == now[i as int]);
                }
            }
        }
        if !earlier {
            r.push(i);
            proof {
                assert(as_ints(r@) =~= as_ints(was).push(i as int));
            }
        }
        i += 1;
    }
    proof {
        assert(all.take(i as int) =~= all);
    }
    r
}

/// Every connection is pushed to, and none of them twice.
pub proof fn each_connection_is_pushed_to_once(connections: Seq<u64>, i: int)
    requires
        0 <= i < connections.len(),
    ensures
        exists|k: int|
            0 <= k < firsts(connections).len() && connections[#[trigger] firsts(connections)[k]]
                == connections[i],
        forall|k: int|
            0 <= k < firsts(connections).len() ==> 0 <= #[trigger] firsts(connections)[k]
                < connections.len(),
        forall|k: int, l: int|
            0 <= k < l < firsts(connections).len() ==> connections[#[trigger] firsts(
                connections,
            )[k]] != connections[#[trigger] firsts(connections)[l]],
    decreases connections.len(),
{
    let rest = connections.drop_last();
    let all = firsts(connections);
    let last = connections.len() - 1;
    assert(rest =~= connections.take(last));
    if rest.len() > 0 {
        each_connection_is_pushed_to_once(rest, if i < last { i } else { 0 });
    }
    let before = firsts(rest);
    assert forall|k: int| 0 <= k < all.len() implies 0 <= #[trigger] all[k] < connections.len() by {
        if k < before.len() {
            assert(all[k] == before[k]);
        }
    }
    assert forall|k: int, l: int| 0 <= k < l < all.len() implies connections[#[trigger] all[k]]
        != connections[#[trigger] all[l]] by {
        assert(all[k] == before[k]);
        assert(0 <= before[k] < rest.len());
        if l < before.len() {
            assert(all[l] == before[l]);
            assert(rest[before[k]] != rest[before[l]]);
        } else {
            assert(all[l] == last);
            if connections[before[k]] == connections[last] {
                assert(seen_before(connections, last));
            }
        }
    }
    if i < last {
        let k = choose|k: int| 0 <= k < before.len() && rest[#[trigger] before[k]] == rest[i];
        assert(all[k] == before[k]);
        assert(connections[all[k]] == connections[i]);
    } else if seen_before(connections, last) {
        let j = choose|j: int| 0 <= j < last && connections[j] == connections[last];
        each_connection_is_pushed_to_once(rest, j);
        let k = choose|k: int| 0 <= k < before.len() && rest[#[trigger] before[k]] == rest[j];
        assert(all[k] == before[k]);
        assert(connections[all[k]] == connections[i]);
    } else {
        assert(all[before.len() as int] == last);
        assert(connections[all[before.len() as int]] == connections[i]);
    }
}

/// The header of a push on channel 0.
pub fn push_header(negotiated_ver: u8) -> (r: FrameHeader)
    ensures
        r == (FrameHeader {
            ver: negotiated_ver,
            ty: FrameType::Push,
            flags: FrameFlags::Control,
            channel: 0,
            epoch: 0,
            corr: 0,
        }),
{
    FrameHeader {
        ver: negotiated_ver,
        ty: FrameType::Push,
        flags: control_flags(),
        channel: 0,
        epoch: 0,
        corr: 0,
    }
}

/// Why a connection is closed from here.
#[derive(Debug)]
pub struct CloseReason {
    pub code: String,
    pub message: String,
}

/// A [`CloseReason`] over characters.
#[verifier::ext_equal]
pub struct CloseView {
    pub code: Seq<char>,
    pub message: Seq<char>,
}

impl View for CloseReason {
    type V = CloseView;

    open spec fn view(&self) -> CloseView {
        CloseView { code: self.code@, message: self.message@ }
    }
}

/// What follows from a push that was not delivered: a client that missed it is cut
/// off, since it would otherwise believe in a route that is gone.
pub fn undelivered_push(target: &GoodbyeTarget, error: &str) -> (r: Option<CloseReason>)
    ensures
        r is Some <==> target.close_on_delivery_failure,
        r matches Some(reason) ==> reason@ == (CloseView {
            code: "route_lifecycle_push_delivery_failed"@,
            message: "failed to enqueue route lifecycle control PUSH for channel "@ + decimal(
                target.channel as nat,
            ) + ": "@ + error@,
        }),
{
    if target.close_on_delivery_failure {
        Some(
            CloseReason {
                code: String::from_str("route_lifecycle_push_delivery_failed"),
                message: String::from_str(
                    "failed to enqueue route lifecycle control PUSH for channel ",
                ).concat(decimal_text(target.channel as u64).as_str()).concat(": ").concat(error),
            },
        )
    } else {
        None
    }
}

/// The header of the GOODBYE that a target gets.
pub fn target_goodbye(target: &GoodbyeTarget) -> (r: FrameHeader)
    ensures
        r == goodbye(target.negotiated_ver, target.channel, target.epoch),
{
    goodbye_header(target.negotiated_ver, target.channel, target.epoch)
}

/// What follows from a GOODBYE that was not delivered.
#[derive(Debug)]
pub enum UndeliveredGoodbye {
    /// The client is cut off, and counted where that is what ended it.
    Close(CloseReason),
    /// The loss is counted for the module. Its connection is shared, so it stays.
    CountDropped { module_id: Option<String> },
}

/// Decides what follows from a GOODBYE that was not delivered.
pub fn undelivered_goodbye(target: &GoodbyeTarget, error: &str) -> (r: UndeliveredGoodbye)
    ensures
        match r {
            UndeliveredGoodbye::Close(reason) => target.close_on_delivery_failure && reason@ == (
            CloseView {
                code: "route_goodbye_delivery_failed"@,
                message: "failed to enqueue route GOODBYE for channel "@ + decimal(
                    target.channel as nat,
                ) + ": "@ + error@,
            }),
            UndeliveredGoodbye::CountDropped { module_id } => !target.close_on_delivery_failure
                && text_option(module_id) == text_option(target.module_id),
        },
{
    if target.close_on_delivery_failure {
        UndeliveredGoodbye::Close(
            CloseReason {
                code: String::from_str("route_goodbye_delivery_failed"),
                message: String::from_str("failed to enqueue route GOODBYE for channel ").concat(
                    decimal_text(target.channel as u64).as_str(),
                ).concat(": ").concat(error),
            },
        )
    } else {
        UndeliveredGoodbye::CountDropped { module_id: crate::text::copy_option(&target.module_id) }
    }
}

/// Whether a client is counted as one that a lost GOODBYE ended: only where the
/// cut took effect.
pub fn counts_failed_client(escalated: Option<bool>) -> (r: bool)
    ensures
        r == (escalated == Some(true)),
{
    match escalated {
        Some(cut) => cut,
        None => false,
    }
}

/// What the supervisor says of a module whose connection was lost.
#[derive(Debug)]
pub enum Recovery {
    /// It does not know the module.
    NotSupervised,
    WillRecover(bool),
    Unreadable,
}

/// The module stays away: only where the supervisor says so.
pub open spec fn stays_away(recovery: Recovery) -> bool {
    recovery matches Recovery::WillRecover(will) && !will
}

/// What the clients of a lost module are told. `module_id` is present where the
/// connection was a module's and its routes are known.
pub fn crash_notice(module_id: Option<&str>, recovery: &Recovery) -> (r: Option<RouteClosed>)
    ensures
        r is Some <==> module_id is Some,
        r matches Some(push) ==> push@ == cut(
            module_id->0@,
            RouteCloseReason::Crash,
            stays_away(*recovery),
        ),
{
    match module_id {
        None => None,
        Some(module_id) => {
            let terminal: bool = match recovery {
                Recovery::NotSupervised => false,
                Recovery::WillRecover(will) => !*will,
                Recovery::Unreadable => false,
            };
            Some(route_closed(module_id, RouteCloseReason::Crash, terminal))
        },
    }
}

/// What follows once the registry and the forwarding table have both been cleared
/// of a connection.
#[derive(Debug)]
pub struct CleanupEnd {
    /// The released routes are told.
    pub goodbyes: bool,
    /// The supervisor, which waits for it before it starts a replacement, is told
    /// that the registration is gone, and the requirements are looked at anew.
    pub release: bool,
}

/// Ends the cleanup of a connection. It takes what both teardowns said, so that a
/// release is never told while old routes are left. `registrations` is how many
/// there were, or nothing where the registry could not say.
pub fn cleanup_end(registrations: Option<usize>, forwarding_cleared: bool) -> (r: CleanupEnd)
    ensures
        r.goodbyes == forwarding_cleared,
        r.release == (registrations matches Some(n) && n > 0),
{
    CleanupEnd {
        goodbyes: forwarding_cleared,
        release: match registrations {
            Some(n) => n > 0,
            None => false,
        },
    }
}

/// What a GOODBYE on channel 0 leads to: an error of either teardown ends it, and
/// otherwise whether the release of a registration is told.
pub open spec fn goodbye_outcome(
    registrations: Result<usize, String>,
    forwarding: Result<(), ForwardingError>,
) -> Result<bool, FaultView> {
    match registrations {
        Err(text) => Err(backend_fault(0, text@)),
        Ok(n) => match forwarding {
            Err(e) => Err(FaultView::Forwarding(e)),
            Ok(()) => Ok(n > 0),
        },
    }
}

/// Ends the handling of a GOODBYE on channel 0.
pub fn goodbye_end(
    registrations: Result<usize, String>,
    forwarding: Result<(), ForwardingError>,
) -> (r: Result<bool, RouterError>)
    ensures
        match r {
            Ok(release) => goodbye_outcome(registrations, forwarding) == Ok::<_, FaultView>(
                release,
            ),
            Err(e) => goodbye_outcome(registrations, forwarding) == Err::<bool, _>(e@),
        },
{
    match registrations {
        Err(text) => Err(backend(0, text)),
        Ok(n) => match forwarding {
            Err(e) => Err(RouterError::Forwarding(e)),
            Ok(()) => Ok(n > 0),
        },
    }
}

/// What became of the release of a client's route.
#[derive(Debug)]
pub enum RouteRelease {
    Removed(GoodbyeTarget),
    /// The epoch is not the route's.
    Stale,
    Absent,
}

/// The end that is told of a released route, or nothing where none was.
pub fn route_goodbye_target(release: Result<RouteRelease, ForwardingError>) -> (r: Result<
    Option<GoodbyeTarget>,
    RouterError,
>)
    ensures
        match release {
            Ok(RouteRelease::Removed(target)) => r == Ok::<_, RouterError>(Some(target)),
            Ok(_) => r == Ok::<Option<GoodbyeTarget>, RouterError>(None),
            Err(e) => r matches Err(fault) && fault@ == FaultView::Forwarding(e),
        },
{
    match release {
        Ok(RouteRelease::Removed(target)) => Ok(Some(target)),
        Ok(_) => Ok(None),
        Err(e) => Err(RouterError::Forwarding(e)),
    }
}

} // verus!
