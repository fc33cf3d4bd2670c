//! Attested external-computation pipeline.
//!
//! A request handler inside an enclave accepts a computation request, has an
//! isolated subprocess run the computation, validates and parses the
//! subprocess's output, and produces a signed, timestamped attestation of the
//! result. This crate holds the verified core of that pipeline: the data
//! model, the output validator and parser, the canonical encoding that is
//! signed, and the orchestrating state machine. Process spawning, the wall
//! clock and the signing primitive are collaborators driven from outside.

pub mod types;
pub mod utf8;
pub mod parse;
pub mod encode;
pub mod pipeline;
