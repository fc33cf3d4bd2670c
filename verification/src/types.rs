//! Data model of the pipeline: requests, process outcomes, parsed results,
//! attestations and the error kinds of every stage.

use vstd::prelude::*;

verus! {

/// The structured result decoded from the computation's standard output:
/// a quality-like metric and a cost-like metric, both required.
#[derive(Clone, Copy, Debug, PartialEq, Eq, Structural)]
pub struct MLResponse {
    pub accuracy: u64,
    pub loss: u64,
}

/// The inbound computation request: a caller-supplied argument string for
/// the external computation. It is data, never code: the invoker passes it
/// as one discrete argument to a fixed executable.
#[derive(Clone, Debug)]
pub struct MLRequest {
    pub data_path: String,
}

/// What one run of the external process produced: its exit code (`None` when
/// it was terminated by a signal) and the captured output streams.
#[derive(Clone, Debug)]
pub struct ProcessOutcome {
    pub exit_code: Option<i32>,
    pub stdout: Vec<u8>,
    pub stderr: Vec<u8>,
}

impl ProcessOutcome {
    /// The run counts as successful exactly when the process exited with code 0.
    pub open spec fn is_success(self) -> bool {
        self.exit_code == Some(0i32)
    }

    /// Exit-status check, mirroring `is_success`.
    pub fn success(&self) -> (r: bool)
        ensures
            r == self.is_success(),
    {
        match self.exit_code {
            Some(c) => c == 0,
            None => false,
        }
    }
}

/// The fixed tag embedded in every signed message, identifying the semantic
/// category of the statement and preventing cross-context replay.
#[derive(Clone, Copy, Debug, PartialEq, Eq, Structural)]
pub enum IntentScope {
    ProcessData,
}

/// A statement about one computation: the parsed result, the wall-clock
/// timestamp in milliseconds since the epoch taken when it was built, and
/// the intent scope. Immutable once signed.
#[derive(Clone, Copy, Debug, PartialEq, Eq, Structural)]
pub struct Attestation {
    pub result: MLResponse,
    pub timestamp_ms: u64,
    pub intent_scope: IntentScope,
}

/// An attestation together with the signature bytes that the enclave's key
/// produced over its canonical encoding.
#[derive(Clone, Debug)]
pub struct SignedAttestation {
    pub attestation: Attestation,
    pub signature: Vec<u8>,
}

/// The terminal failure of a request, one kind per stage. No error is
/// retried; no signature accompanies any of them.
#[derive(Clone, Debug)]
pub enum PipelineError {
    /// The external executable could not be started at all.
    LaunchFailure { message: String },
    /// The process ran but exited with a non-success status; its captured
    /// standard error is kept for diagnostics.
    ExecutionFailure { stderr: Vec<u8> },
    /// Captured standard output was not valid UTF-8 text.
    EncodingError,
    /// The text did not decode into the expected two-field record.
    SchemaError,
    /// The wall clock could not be read.
    ClockError,
    /// The signing collaborator failed to produce a signature.
    SigningError,
}

} // verus!
