//! Supervision of a bundled local web-server process.
//!
//! A desktop application shell spawns a bundled server script as a child
//! process at startup and terminates it at shutdown. This crate holds the
//! decisions of that lifecycle: planning the launch (interpreter, argument,
//! port environment variable, stream wiring), formatting launch failures,
//! choosing between the debug and release setup paths, and tracking the
//! single managed process handle from registration to termination. The host
//! shell performs the surrounding I/O — resolving the bundled path, spawning,
//! killing and reaping — and feeds the outcomes back in as plain values.

pub mod launch;
pub mod mode;
pub mod supervisor;
