//! Control logic of a cross-chain relay controller: a component on one
//! chain that forwards governance-approved commands to a counterpart on a
//! remote chain over an asynchronous, packet-based transport.
//!
//! The host invokes one entry function per transaction or packet and
//! persists the [`state::State`] store between invocations. Every entry
//! function carries a contract against a spec-level transition, so the
//! exactly-once dispatch of proposals, the time-boxed ownership handshake
//! and the version-gated migration are verified; the laws the controller
//! obeys across invocations are stated and proved in [`laws`].

pub mod contract;
pub mod error;
pub mod laws;
pub mod msg;
pub mod response;
pub mod state;
