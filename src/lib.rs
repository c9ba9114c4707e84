//! Inbound message handling for one peer connection of a blockchain node:
//! ban and version gating, per-message dispatch to the node adapter, and the
//! chunked transfer of chain-state snapshots.

pub mod adapter;
pub mod clock;
pub mod laws;
pub mod protocol;
pub mod types;
pub mod version;
