//! Decision logic of a loopback HTTP bridge that forwards every request to one
//! fixed destination through a local upstream HTTP proxy.
//!
//! The library holds the rules: how addresses are written, how the readiness
//! poll counts its attempts, which options the embedded router is started
//! with, how one request is rewritten, relayed and answered. Sockets, tasks
//! and the HTTP server live with the caller.

pub mod text;
pub mod config;
pub mod router;
pub mod readiness;
pub mod relay;
pub mod bridge;
