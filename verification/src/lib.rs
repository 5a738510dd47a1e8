//! Decision core of a local module daemon.
use vstd::prelude::*;

pub mod bootstrap;
pub mod control;
pub mod daemon_config;
pub mod json;
pub mod key_order;
pub mod paths;
pub mod problems;
pub mod span;
pub mod text;
pub mod text_map;

verus! {

} // verus!
