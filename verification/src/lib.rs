//! Control-plane core for a distributed storage platform.
//!
//! The library tracks desired configuration (specs) and last observed runtime
//! condition (states) of pools, replicas, nexuses and the volumes composed
//! from them, derives a volume's effective health from its constituents, and
//! exposes the registry operations behind typed request/reply shapes with a
//! per-operation timeout policy.

pub mod errors;
pub mod facade;
pub mod filter;
pub mod registry;
pub mod requests;
pub mod resources;
pub mod server;
pub mod store;
pub mod timeout;
pub mod wire;
