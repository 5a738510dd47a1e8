//! The control plane: every decision the daemon takes on channel 0.
pub mod answers;
pub mod breaker;
pub mod catalog;
pub mod census;
pub mod concurrency;
pub mod deny;
pub mod dispatch;
pub mod fault;
pub mod guards;
pub mod handler;
pub mod health_probe;
pub mod hello;
pub mod laws;
pub mod manifest;
pub mod ops;
pub mod pushes;
pub mod relay_response;
pub mod rescan;
pub mod route_open;
pub mod supervisor;
pub mod wire;
