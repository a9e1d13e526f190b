//! Replication core for a small client/server movement demo.
//!
//! One authoritative process simulates the world: players connect, are
//! spawned with a deterministic pseudo-color, send normalized movement
//! intents, and the authority integrates those intents into positions at a
//! fixed speed. Non-authority processes hold read-only replicated copies of
//! the state, refreshed from snapshots. All geometry is fixed-point: one
//! world unit is `FX_ONE` ticks of an `i64` coordinate, so every contract
//! here is exact integer arithmetic.

pub mod color;
pub mod fixed;
pub mod intent;
pub mod lifecycle;
pub mod player;
pub mod store;
pub mod tick;
