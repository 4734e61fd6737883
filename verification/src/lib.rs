//! Client-side protocol layer for talking to a serially-executing database
//! coordinator over message passing.
//!
//! The crate enforces three lifecycle guarantees: connection identifiers are
//! unique among live connections and reusable after release, each session's
//! state value has exactly one owner at any observable time, and cancellation
//! is delivered out of band from command/response traffic.

mod channel;
pub mod client;
pub mod command;
pub mod error;
pub mod id_alloc;
pub mod session;
