//! Supervision of a single long-lived backend server process.
//!
//! The library holds the decision logic of a desktop shell's backend
//! supervisor: locating the backend executable across deployment layouts
//! ([`resolver`]), clearing stale instances left over from a crashed run
//! ([`reclaim`]), driving the launch state machine and owning the one live
//! process handle ([`supervisor`]), and judging the backend's network
//! readiness from probe outcomes ([`prober`]).
//!
//! The host application performs the surrounding effects - filesystem
//! checks, spawning, signalling, connecting - and feeds their outcomes to
//! these functions as plain values.

pub mod errors;
pub mod prober;
pub mod reclaim;
pub mod resolver;
pub mod scan;
pub mod supervisor;
