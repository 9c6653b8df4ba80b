//! Session-scoped TCP rendezvous relay: the verified core.
//!
//! The relay bridges two clients (a caller and a callee) that cannot reach
//! each other directly.  It binds two listening sockets, announces their
//! addresses on an inherited stream, pairs one connection from each listener,
//! and shovels bytes verbatim between the paired connections.  A single
//! long-lived control pair is supervised strictly (any failure ends the
//! process); later media pairs come and go leniently.
//!
//! This crate holds the decision logic, verified: the announcement encoding,
//! the watchdog countdown, the shovel's per-chunk policy, the rendezvous
//! pairing discipline, and the session phase machine.  The surrounding
//! process (sockets, threads, timers) drives these from outside.

pub mod bootstrap;
pub mod encode;
pub mod rendezvous;
pub mod shovel;
pub mod supervisor;
pub mod watchdog;
