//! What can go wrong below the control plane, and what a client is told of it.
use crate::control::guards::ModuleEndpointId;
use vstd::prelude::*;

verus! {

/// A failure of the forwarding table.
#[derive(Debug)]
pub enum ForwardingError {
    NoModuleConnection,
    ModuleReloading { module_id: String },
    ClientRouteChannelExhausted { connection_id: u64 },
    ModuleRouteChannelExhausted { endpoint: ModuleEndpointId },
    StaleModuleEndpoint,
    UnknownReservation { client_channel: u16, module_channel: u16 },
    ConnectionClosing { connection_id: u64 },
    ClientEgressClosed { connection_id: u64 },
    RelayCorrelationExhausted,
    RouteOpenBuild(String),
    Poisoned,
}

/// A failure of the forwarding table and its text.
#[derive(Debug)]
pub struct ForwardingFailure {
    pub error: ForwardingError,
    pub text: String,
}

/// A failure that ends the handling of a frame without an answer.
#[derive(Debug)]
pub enum RouterError {
    /// A failure behind the control plane, with the channel and the correlation
    /// id of the frame.
    Backend { channel: u16, corr: u64, message: String },
    Forwarding(ForwardingError),
    /// A frame of the daemon's own could not be built.
    FrameBuild(String),
}

/// A [`RouterError`] over characters.
#[verifier::ext_equal]
pub enum FaultView {
    Backend { channel: u16, corr: u64, message: Seq<char> },
    Forwarding(ForwardingError),
    FrameBuild(Seq<char>),
}

impl View for RouterError {
    type V = FaultView;

    open spec fn view(&self) -> FaultView {
        match *self {
            RouterError::Backend { channel, corr, message } => FaultView::Backend {
                channel,
                corr,
                message: message@,
            },
            RouterError::Forwarding(err) => FaultView::Forwarding(err),
            RouterError::FrameBuild(text) => FaultView::FrameBuild(text@),
        }
    }
}

/// A failure behind the control plane, on channel 0.
pub open spec fn backend_fault(corr: u64, message: Seq<char>) -> FaultView {
    FaultView::Backend { channel: 0, corr, message }
}

/// A failure behind the control plane, on channel 0.
pub fn backend(corr: u64, message: String) -> (r: RouterError)
    ensures
        r@ == backend_fault(corr, message@),
{
    RouterError::Backend { channel: 0, corr, message }
}

/// The code by which a client learns of a forwarding failure.
pub open spec fn forwarding_code(err: ForwardingError) -> Seq<char> {
    match err {
        ForwardingError::NoModuleConnection => "target_unavailable"@,
        ForwardingError::ModuleReloading { .. } => "module_reloading"@,
        ForwardingError::ClientRouteChannelExhausted { .. } => "route_limit"@,
        ForwardingError::ModuleRouteChannelExhausted { .. } => "route_limit"@,
        ForwardingError::StaleModuleEndpoint => "target_unavailable"@,
        ForwardingError::UnknownReservation { .. } => "target_unavailable"@,
        ForwardingError::ConnectionClosing { .. } => "target_unavailable"@,
        ForwardingError::ClientEgressClosed { .. } => "target_unavailable"@,
        ForwardingError::RelayCorrelationExhausted => "forwarding_error"@,
        ForwardingError::RouteOpenBuild(_) => "forwarding_error"@,
        ForwardingError::Poisoned => "forwarding_error"@,
    }
}

/// The code by which a client learns of a forwarding failure.
pub fn forwarding_error_code(err: &ForwardingError) -> (r: &'static str)
    ensures
        r@ == forwarding_code(*err),
{
    match err {
        ForwardingError::NoModuleConnection => "target_unavailable",
        ForwardingError::ModuleReloading { .. } => "module_reloading",
        ForwardingError::ClientRouteChannelExhausted { .. } => "route_limit",
        ForwardingError::ModuleRouteChannelExhausted { .. } => "route_limit",
        ForwardingError::StaleModuleEndpoint => "target_unavailable",
        ForwardingError::UnknownReservation { .. } => "target_unavailable",
        ForwardingError::ConnectionClosing { .. } => "target_unavailable",
        ForwardingError::ClientEgressClosed { .. } => "target_unavailable",
        ForwardingError::RelayCorrelationExhausted => "forwarding_error",
        ForwardingError::RouteOpenBuild(_) => "forwarding_error",
        ForwardingError::Poisoned => "forwarding_error",
    }
}

/// The codes that every client in the field retries in place.
pub open spec fn retryable_codes() -> Seq<Seq<char>> {
    seq![
        "unknown_module"@,
        "module_reloading"@,
        "module_warming"@,
        "target_unavailable"@,
        "module_timeout"@,
    ]
}

/// Whether trying again is how a forwarding failure resolves: the target is
/// booting, reloading, or its endpoint was swapped meanwhile. An exhausted
/// channel range or a poisoned table is not mended by waiting.
pub open spec fn transient(err: ForwardingError) -> bool {
    match err {
        ForwardingError::NoModuleConnection => true,
        ForwardingError::ModuleReloading { .. } => true,
        ForwardingError::StaleModuleEndpoint => true,
        ForwardingError::UnknownReservation { .. } => true,
        ForwardingError::ConnectionClosing { .. } => true,
        ForwardingError::ClientEgressClosed { .. } => true,
        _ => false,
    }
}

/// Clients retry a forwarding failure exactly when trying again can resolve it.
pub proof fn retried_exactly_when_transient(err: ForwardingError)
    ensures
        retryable_codes().contains(forwarding_code(err)) <==> transient(err),
{
    reveal_strlit("unknown_module");
    reveal_strlit("module_reloading");
    reveal_strlit("module_warming");
    reveal_strlit("target_unavailable");
    reveal_strlit("module_timeout");
    reveal_strlit("route_limit");
    reveal_strlit("forwarding_error");
    let codes = retryable_codes();
    assert(codes[1] == "module_reloading"@);
    assert(codes[3] == "target_unavailable"@);
    assert forall|i: int| 0 <= i < codes.len() implies #[trigger] codes[i] != "route_limit"@
        && codes[i] != "forwarding_error"@ by {
        assert("forwarding_error"@.len() == 16);
        assert("module_reloading"@.len() == 16);
        assert("module_reloading"@[0] != "forwarding_error"@[0]);
        assert("route_limit"@.len() == 11);
    }
}

/// Whether a failure to settle a relayed bind ends the module connection on which
/// the answer came.
///
/// A module connection carries every client's routes to the module. A closing
/// connection that is some client's concerns that client alone: its bind is
/// dropped and the module connection goes on. Every other failure is one of the
/// connection itself.
pub fn refuse_to_end_module_connection_for_a_client(
    module_connection_id: u64,
    err: ForwardingError,
) -> (r: Result<(), RouterError>)
    ensures
        r is Ok <==> closes_a_client_only(module_connection_id, err),
        r matches Err(fault) ==> fault == RouterError::Forwarding(err),
{
    if let ForwardingError::ConnectionClosing { connection_id } = err {
        if connection_id != module_connection_id {
            return Ok(());
        }
    }
    Err(RouterError::Forwarding(err))
}

/// The failure is the closing of a connection other than the module's own.
pub open spec fn closes_a_client_only(module_connection_id: u64, err: ForwardingError) -> bool {
    err matches ForwardingError::ConnectionClosing { connection_id } && connection_id
        != module_connection_id
}

} // verus!
