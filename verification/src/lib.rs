//! A configurable mock of the standard RPC health-check service.
//!
//! The service exposes two operations, a single-shot `Check` and a streaming
//! `Watch`, and can be configured at startup to fail in one of three ways:
//! at the request-interception boundary, inside the method bodies, or not at
//! all. This crate holds the failure-mode model and the two operations'
//! decision logic; the transport layer, the async runtime and process
//! bootstrap live outside it.

pub mod failure_modes;
pub mod health;
pub mod rpc;
pub mod watch;
