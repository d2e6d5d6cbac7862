//! A virtual network-interface layer: a registry of logical network devices,
//! each with a link-layer identity, an explicit open/closed lifecycle, and a
//! bounded-transmission contract.
//!
//! The registry assigns each device a stable handle and the name `net<N>` at
//! registration time, opens and closes all devices in bulk, and dispatches
//! transmission requests by handle. A device accepts a payload only while it
//! is open and only up to its MTU.

pub mod bounded;
pub mod device;
pub mod errors;
pub mod naming;
pub mod registry;
