//! Supervision core for a desktop shell around an external NOSTR relay
//! process.
//!
//! The library holds the launcher's state machine: at most one handle to a
//! spawned relay process, the relay settings, the decisions taken on start,
//! stop and status requests, the text of the generated relay configuration
//! file, and the interpretation of a liveness probe's response. Everything
//! here is plain computation with a contract; the process spawning, the
//! filesystem writes and the network probe themselves live outside the
//! library and feed it plain values.

pub mod config;
pub mod launcher;
pub mod probe;
pub mod status;
pub mod strategy;
pub mod text;
