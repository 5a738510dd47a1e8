//! What holds of every answer of the control plane, stated on the fields of what
//! comes in and of what goes out.
pub mod catalogs;
pub mod closings;
pub mod frames;
pub mod hellos;
pub mod manifests;
pub mod opening;
pub mod relays;
