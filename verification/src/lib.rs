//! Coordination primitives for clusters of embedded modules: decaying
//! potential fields, gradient-driven local scheduling, and the supporting
//! message authentication, gossip and queueing pieces.

pub mod auth;
pub mod field;
pub mod fixed_point;
pub mod gossip;
pub mod hal;
pub mod module;
pub mod spsc;
pub mod types;
