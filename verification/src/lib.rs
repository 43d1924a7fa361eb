//! Command adapter for the external `bridge-cli` tool.
//!
//! The adapter translates a structured [`request::InvocationRequest`] into an
//! argument vector for a child process, and translates the raw outcome of that
//! process (captured output bytes and exit status) back into a structured
//! [`outcome::InvocationResult`]. Spawning the process itself is I/O and is
//! left to the embedding application; everything the adapter decides — which
//! flags appear, in which order, how output bytes and the exit status are
//! rendered — is verified here.

pub mod args;
pub mod outcome;
pub mod request;
