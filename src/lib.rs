//! Decisions of a host-driven child-process controller.
//!
//! The host starts a child process, writes text to its standard input and
//! polls, once per tick, for what it printed on its standard output and
//! error streams. The blocking pipe I/O and the background threads live
//! outside this crate; everything they hand over (bytes drained from a
//! stream, the outcome of a spawn) is turned here into host-visible results.

pub mod controller;
pub mod text;
