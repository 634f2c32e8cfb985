//! A policy-driven request gateway core.
//!
//! An inbound request is mapped by name to a policy that names a chain of
//! inbound handlers, an upstream target, and a chain of outbound handlers.
//! The gateway runs the inbound chain, forwards to the target, runs the
//! outbound chain, and returns the resulting response.
//!
//! This crate holds the verified core: policy storage and lookup, the
//! handler-chain execution state machine, the plugin-registry cache, upstream
//! URL construction and outcome mapping, and the per-request pipeline that
//! sequences them. The transport (HTTP server and client), the dynamic
//! loading of native handler code, and configuration parsing live outside the
//! verified core and drive it through these types.

pub mod chain;
pub mod forward;
pub mod policy;
pub mod registry;
pub mod response;
pub mod router;
pub mod store;
