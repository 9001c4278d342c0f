//! Supervision of an inference worker that runs as a sidecar process and is
//! reached over local HTTP.
//!
//! The library holds the decisions: when to spawn, when a stored process is
//! reported as running, how long to wait for readiness, what is sent to the
//! worker and how its answers are classified. The caller performs the process
//! and network operations that each decision asks for.
pub mod status;
pub mod http;
pub mod readiness;
pub mod supervisor;
