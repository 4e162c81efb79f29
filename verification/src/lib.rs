//! Composition and startup orchestration for a follower node that replicates
//! a rollup chain's state from an upstream authority.
//!
//! The crate validates a requested set of high-level components, orders them so
//! that resource consumers come after resource producers, and expands them into
//! a fixed, deterministic sequence of layers that a service runtime can spawn.

pub mod components;
pub mod config;
pub mod layers;
pub mod builder;
pub mod resources;
pub mod service;
pub mod price_api;
