//! Verified core of a capture-exclusion tool: resolving a screen point to the
//! topmost eligible window, choosing the privileged injector and companion
//! module for an architecture pair, the bounded peer-wait policy of the
//! one-shot parameter channel, and the orchestrator state machine that
//! sequences the whole hide operation.
//!
//! All operating-system calls (window enumeration, process queries, the named
//! pipe, launching the injector) live outside this crate; the functions here
//! take the plain values those calls produce and make every decision.

pub mod arch;
pub mod capture;
pub mod channel;
pub mod dispatch;
pub mod geometry;
pub mod orchestrator;
pub mod params;
pub mod resolver;
pub mod text;
