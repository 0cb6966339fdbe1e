//! A minimal syscall tracer: runs a target program under kernel execution
//! tracing, decodes the arguments of selected syscalls from the target's
//! registers and memory, and emits one human-readable line per call.
//!
//! This crate holds the verified core: number and flag formatting, the
//! bounded remote-string scan, socket-address decoding, and the trace
//! controller's state machine. Process launching and the blocking waits
//! live outside, in the accompanying binary.

pub mod flags;
pub mod fmt;
pub mod controller;
pub mod decode;
pub mod remote;
pub mod sockaddr;
