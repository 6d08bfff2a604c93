//! Runtime patch engine for an already-running, unmodifiable target process.
//!
//! A controller process launches the target, publishes configuration through a
//! named shared environment segment, and injects a patch module. Inside the
//! target, the patch module resolves hook addresses from a per-build offset
//! table, installs inline hooks, and routes selected routines through endpoint
//! handlers that consult the shared record on every call.
//!
//! This crate holds the verified core: the shared record and its byte layout,
//! the segment namespace model, the hook bookkeeping, the endpoint decision
//! logic, and the state machines that drive injection and process lifecycle.
//! The operating-system calls that carry these decisions out live outside the
//! library.

pub mod client_switch;
pub mod codec;
pub mod endpoints;
pub mod environment;
pub mod errors;
pub mod fov;
pub mod hooks;
pub mod injection;
pub mod launcher;
pub mod lifecycle;
pub mod login;
pub mod process;
pub mod resolve;
pub mod segment;
pub mod text;
