//! A minimal deterministic state-transition runtime.
//!
//! Independent state modules (pallets) each own one slice of the state; the
//! runtime owns one instance of each, routes tagged calls to them and replays
//! blocks of extrinsics against them.

pub mod support;
pub mod types;
mod numeric;
pub mod system;
pub mod balances;
pub mod proof_of_existence;
pub mod runtime;
