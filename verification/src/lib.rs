//! A verified supervisor for a single local backend process.
//!
//! The library owns the decision logic of the supervisor: whether a start
//! call must spawn, what each call replies, how the state slot changes, and
//! how a health probe's outcome is read. The operating-system calls
//! themselves (spawning, terminating, the HTTP probe) are performed by the
//! embedding application, which feeds their outcomes back as plain values.

pub mod messages;
pub mod model;
pub mod supervisor;
