//! What is still owed to the forwarding table when a handler ends early.
//!
//! A guard is armed when it is made. Whoever drops it asks it what is left to
//! do, and it answers once.
use vstd::prelude::*;

verus! {

/// A module's side of the forwarding table: its connection, and which of the
/// connection's registrations.
#[derive(Clone, Copy, Debug, PartialEq, Eq, Structural)]
pub struct ModuleEndpointId {
    pub connection_id: u64,
    pub generation: u64,
}

/// A reply that the daemon no longer waits for.
#[derive(Clone, Copy, Debug, PartialEq, Eq, Structural)]
pub struct PendingExchange {
    pub endpoint: ModuleEndpointId,
    pub corr: u64,
}

/// Stands for a control request that a module has not answered yet.
#[derive(Debug)]
pub struct ModuleControlRpcGuard {
    exchange: PendingExchange,
    armed: bool,
}

impl ModuleControlRpcGuard {
    /// The request it stands for.
    pub closed spec fn exchange(&self) -> PendingExchange {
        self.exchange
    }

    /// Whether the request is still to be cancelled.
    pub closed spec fn armed(&self) -> bool {
        self.armed
    }

    /// An armed guard.
    pub fn new(endpoint: ModuleEndpointId, corr: u64) -> (r: ModuleControlRpcGuard)
        ensures
            r.exchange() == (PendingExchange { endpoint, corr }),
            r.armed(),
    {
        ModuleControlRpcGuard { exchange: PendingExchange { endpoint, corr }, armed: true }
    }

    /// The request has settled; nothing is left to cancel.
    pub fn disarm(&mut self)
        ensures
            final(self).exchange() == old(self).exchange(),
            !final(self).armed(),
    {
        self.armed = false;
    }

    /// What to cancel when the guard goes.
    pub fn on_drop(&self) -> (r: Option<PendingExchange>)
        ensures
            r == (if self.armed() {
                Some(self.exchange())
            } else {
                None
            }),
    {
        if self.armed {
            Some(self.exchange)
        } else {
            None
        }
    }
}

/// Why a reservation is given back by a guard.
pub const ROUTE_OPEN_CANCELED: &'static str = "route.open handler canceled";

/// Stands for a pair of route channels that is reserved for a bind.
#[derive(Debug)]
pub struct RouteBindReservationGuard {
    exchange: PendingExchange,
    armed: bool,
}

impl RouteBindReservationGuard {
    /// The relayed bind it stands for.
    pub closed spec fn exchange(&self) -> PendingExchange {
        self.exchange
    }

    /// Whether the reservation is still to be given back.
    pub closed spec fn armed(&self) -> bool {
        self.armed
    }

    /// An armed guard.
    pub fn new(endpoint: ModuleEndpointId, relay_corr: u64) -> (r: RouteBindReservationGuard)
        ensures
            r.exchange() == (PendingExchange { endpoint, corr: relay_corr }),
            r.armed(),
    {
        RouteBindReservationGuard {
            exchange: PendingExchange { endpoint, corr: relay_corr },
            armed: true,
        }
    }

    /// Gives the reservation back: the relay to abort, the first time only.
    pub fn release_and_disarm(&mut self) -> (r: Option<PendingExchange>)
        ensures
            r == (if old(self).armed() {
                Some(old(self).exchange())
            } else {
                None
            }),
            final(self).exchange() == old(self).exchange(),
            !final(self).armed(),
    {
        if !self.armed {
            return None;
        }
        self.armed = false;
        Some(self.exchange)
    }

    /// The bind was accepted: the reservation has become a route.
    pub fn disarm(&mut self)
        ensures
            final(self).exchange() == old(self).exchange(),
            !final(self).armed(),
    {
        self.armed = false;
    }
}

} // verus!
