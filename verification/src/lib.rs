//! Runtime and dispatch core of a secure partition.
//!
//! A partition is an isolated execution context scheduled by a hypervisor; it
//! talks to the outside world only through a register-based message protocol.
//! This crate holds the verified core of such a partition:
//!
//! - [`stack`]: the statically sized, zero-initialised boot stack reservation;
//! - [`boot`]: the entry sequence, which establishes the stack and the
//!   exception vector base before the application's init routine runs;
//! - [`diag`]: structured diagnostics (exception origin and class, interrupt
//!   reports, handler failures) for the partition's only reporting channel;
//! - [`vectors`]: the 16-slot exception vector table model and its fail-stop
//!   default policy;
//! - [`interrupt`]: the pluggable interrupt dispatch hook;
//! - [`codec`]: the lossless little-endian packing of payload bytes into
//!   64-bit register slots, and its inverse;
//! - [`message`]: directed request/response messages and the notification
//!   primitive;
//! - [`registry`]: the identifier-keyed service registry, built once at
//!   startup and immutable thereafter;
//! - [`service`]: the contract every pluggable service handler satisfies;
//! - [`engine`]: the single-flight cooperative dispatch engine, modelled as a
//!   state machine from events to actions;
//! - [`test_svc`]: the diagnostic test service riding on the core.

pub mod boot;
pub mod codec;
pub mod diag;
pub mod engine;
pub mod interrupt;
pub mod message;
pub mod registry;
pub mod service;
pub mod stack;
pub mod test_svc;
pub mod vectors;
