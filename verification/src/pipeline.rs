//! The request pipeline: invocation plan, output validation, attestation
//! building, and the orchestrating state machine.
//!
//! The pipeline runs strictly one way: request, invoke, validate and parse,
//! attest and sign, respond. The outside work — spawning the process,
//! reading the wall clock, producing the signature — is done by the caller,
//! which drives the state machine here with the outcome of each action.

use vstd::prelude::*;
use crate::types::Attestation;
use crate::types::IntentScope;
use crate::types::MLRequest;
use crate::types::MLResponse;
use crate::types::PipelineError;
use crate::types::ProcessOutcome;
use crate::types::SignedAttestation;
use crate::utf8::is_utf8;
use crate::utf8::validate_utf8;
use crate::parse::parse_spec;
use crate::parse::parse_ml_response;
use crate::encode::spec_canonical;
use crate::encode::canonical_message;

verus! {

/// The fixed, pre-registered path of the external computation executable.
/// It is a constant of the pipeline: no request content ever selects it.
pub open spec fn spec_program_path() -> Seq<char> {
    "/ml_task.bin"@
}

/// How to launch the external computation: which program, and the one
/// caller-supplied value handed to it as a discrete argument. The argument
/// is data, never routed through a command interpreter.
#[derive(Clone, Debug)]
pub struct InvocationPlan {
    pub program: String,
    pub argument: String,
}

/// Plans the launch for a request. The program is the fixed executable
/// path whatever the request holds; the caller's argument is passed on
/// literally, as a single value.
pub fn invocation_plan(request: &MLRequest) -> (r: InvocationPlan)
    ensures
        r.program@ == spec_program_path(),
        r.argument@ == request.data_path@,
{
    InvocationPlan { program: "/ml_task.bin".to_owned(), argument: request.data_path.clone() }
}

/// The whole validation stage on one process outcome: exit status first,
/// then text well-formedness, then the schema.
pub open spec fn spec_validate(outcome: ProcessOutcome) -> Result<MLResponse, PipelineError> {
    if !outcome.is_success() {
        Err(PipelineError::ExecutionFailure { stderr: outcome.stderr })
    } else if !is_utf8(outcome.stdout@) {
        Err(PipelineError::EncodingError)
    } else {
        match parse_spec(outcome.stdout@) {
            Some(v) => Ok(v),
            None => Err(PipelineError::SchemaError),
        }
    }
}

/// Validates a process outcome and decodes its standard output.
pub fn validate_and_parse(outcome: ProcessOutcome) -> (r: Result<MLResponse, PipelineError>)
    ensures
        r == spec_validate(outcome),
{
    if !outcome.success() {
        return Err(PipelineError::ExecutionFailure { stderr: outcome.stderr });
    }
    if !validate_utf8(&outcome.stdout) {
        return Err(PipelineError::EncodingError);
    }
    match parse_ml_response(&outcome.stdout) {
        Some(v) => Ok(v),
        None => Err(PipelineError::SchemaError),
    }
}

/// Stamps a parsed result with the wall-clock reading and the fixed intent
/// scope of this pipeline.
pub fn build_attestation(result: MLResponse, timestamp_ms: u64) -> (r: Attestation)
    ensures
        r == (Attestation { result, timestamp_ms, intent_scope: IntentScope::ProcessData }),
{
    Attestation { result, timestamp_ms, intent_scope: IntentScope::ProcessData }
}

/// Joins an attestation with the signature bytes the signing collaborator
/// produced over its canonical encoding. The attestation is immutable from
/// here on.
pub fn assemble_signed(attestation: Attestation, signature: Vec<u8>) -> (r: SignedAttestation)
    ensures
        r == (SignedAttestation { attestation, signature }),
{
    SignedAttestation { attestation, signature }
}

/// Where one request stands. `Completed` and `Failed` are the terminal
/// stages; a failure at any stage ends the request with a typed error and
/// no signed output.
#[derive(Clone, Debug)]
pub enum Stage {
    Received { request: MLRequest },
    Invoking { request: MLRequest },
    Attesting { result: MLResponse },
    Signing { attestation: Attestation },
    Completed { signed: SignedAttestation },
    Failed { error: PipelineError },
}

/// What the outside world reports back after performing an action.
#[derive(Clone, Debug)]
pub enum Event {
    Start,
    ProcessFinished { outcome: ProcessOutcome },
    ProcessLaunchFailed { message: String },
    ClockRead { timestamp_ms: u64 },
    ClockUnavailable,
    SignatureProduced { signature: Vec<u8> },
    SignerFailed,
}

/// What the caller must do next on behalf of the pipeline.
#[derive(Clone, Debug)]
pub enum Action {
    RunProcess { program: String, argument: String },
    ReadClock,
    SignMessage { message: Vec<u8> },
    Respond,
}

/// The events each stage can answer: the caller feeds the machine only the
/// outcome of the action it was just asked to perform.
pub open spec fn compatible(state: Stage, event: Event) -> bool {
    match (state, event) {
        (Stage::Received { .. }, Event::Start) => true,
        (Stage::Invoking { .. }, Event::ProcessFinished { .. }) => true,
        (Stage::Invoking { .. }, Event::ProcessLaunchFailed { .. }) => true,
        (Stage::Attesting { .. }, Event::ClockRead { .. }) => true,
        (Stage::Attesting { .. }, Event::ClockUnavailable) => true,
        (Stage::Signing { .. }, Event::SignatureProduced { .. }) => true,
        (Stage::Signing { .. }, Event::SignerFailed) => true,
        _ => false,
    }
}

/// The transition relation of the pipeline. Every transition is listed;
/// nothing leaves `Completed` or `Failed`.
pub open spec fn next(pre: Stage, event: Event, post: Stage) -> bool {
    match (pre, event) {
        (Stage::Received { request }, Event::Start) => post == (Stage::Invoking { request }),
        (Stage::Invoking { .. }, Event::ProcessFinished { outcome }) => match spec_validate(
            outcome,
        ) {
            Ok(v) => post == (Stage::Attesting { result: v }),
            Err(e) => post == (Stage::Failed { error: e }),
        },
        (Stage::Invoking { .. }, Event::ProcessLaunchFailed { message }) => post == (Stage::Failed {
            error: PipelineError::LaunchFailure { message },
        }),
        (Stage::Attesting { result }, Event::ClockRead { timestamp_ms }) => post == (Stage::Signing {
            attestation: Attestation { result, timestamp_ms, intent_scope: IntentScope::ProcessData },
        }),
        (Stage::Attesting { .. }, Event::ClockUnavailable) => post == (Stage::Failed {
            error: PipelineError::ClockError,
        }),
        (Stage::Signing { attestation }, Event::SignatureProduced { signature }) => post == (
        Stage::Completed { signed: SignedAttestation { attestation, signature } }),
        (Stage::Signing { .. }, Event::SignerFailed) => post == (Stage::Failed {
            error: PipelineError::SigningError,
        }),
        _ => false,
    }
}

/// One transition of the orchestrator: takes the stage a request stands in
/// and the event the caller reports, and returns the next stage together
/// with the action the caller must perform for it.
pub fn step(state: Stage, event: Event) -> (r: (Stage, Action))
    requires
        compatible(state, event),
    ensures
        next(state, event, r.0),
        (state matches Stage::Received { request } ==> (r.1 matches Action::RunProcess {
            program,
            argument,
        } && program@ == spec_program_path() && argument@ == request.data_path@)),
        (event matches Event::ProcessFinished { outcome } ==> (if spec_validate(outcome) is Ok {
            r.1 == Action::ReadClock
        } else {
            r.1 == Action::Respond
        })),
        (event matches Event::ProcessLaunchFailed { .. } ==> r.1 == Action::Respond),
        (state matches Stage::Attesting { result } ==> (event matches Event::ClockRead {
            timestamp_ms,
        } ==> (r.1 matches Action::SignMessage { message } && message@ == spec_canonical(
            Attestation { result, timestamp_ms, intent_scope: IntentScope::ProcessData },
        )))),
        (event matches Event::ClockUnavailable ==> r.1 == Action::Respond),
        (state matches Stage::Signing { .. } ==> r.1 == Action::Respond),
{
    match (state, event) {
        (Stage::Received { request }, Event::Start) => {
            let plan = invocation_plan(&request);
            (
                Stage::Invoking { request },
                Action::RunProcess { program: plan.program, argument: plan.argument },
            )
        },
        (Stage::Invoking { .. }, Event::ProcessFinished { outcome }) => {
            match validate_and_parse(outcome) {
                Ok(v) => (Stage::Attesting { result: v }, Action::ReadClock),
                Err(e) => (Stage::Failed { error: e }, Action::Respond),
            }
        },
        (Stage::Invoking { .. }, Event::ProcessLaunchFailed { message }) => {
            (Stage::Failed { error: PipelineError::LaunchFailure { message } }, Action::Respond)
        },
        (Stage::Attesting { result }, Event::ClockRead { timestamp_ms }) => {
            let attestation = build_attestation(result, timestamp_ms);
            let message = canonical_message(&attestation);
            (Stage::Signing { attestation }, Action::SignMessage { message })
        },
        (Stage::Attesting { .. }, Event::ClockUnavailable) => {
            (Stage::Failed { error: PipelineError::ClockError }, Action::Respond)
        },
        (Stage::Signing { attestation }, Event::SignatureProduced { signature }) => {
            (Stage::Completed { signed: assemble_signed(attestation, signature) }, Action::Respond)
        },
        (Stage::Signing { .. }, Event::SignerFailed) => {
            (Stage::Failed { error: PipelineError::SigningError }, Action::Respond)
        },
        _ => vstd::pervasive::unreached(),
    }
}

/// A valid output is attested exactly: whenever the process outcome decodes
/// to a result `v` and the machine runs on to completion, the signed
/// attestation embeds `v` unchanged — same fields, no reordering — together
/// with the reported clock reading and the produced signature.
pub proof fn lemma_result_embedded_exactly(
    request: MLRequest,
    outcome: ProcessOutcome,
    v: MLResponse,
    timestamp_ms: u64,
    signature: Vec<u8>,
    s1: Stage,
    s2: Stage,
    s3: Stage,
)
    requires
        spec_validate(outcome) == Ok::<MLResponse, PipelineError>(v),
        next(Stage::Invoking { request }, Event::ProcessFinished { outcome }, s1),
        next(s1, Event::ClockRead { timestamp_ms }, s2),
        next(s2, Event::SignatureProduced { signature }, s3),
    ensures
        s3 == (Stage::Completed {
            signed: SignedAttestation {
                attestation: Attestation {
                    result: v,
                    timestamp_ms,
                    intent_scope: IntentScope::ProcessData,
                },
                signature,
            },
        }),
{
}

/// A non-success exit signs nothing: the only transition out of `Invoking`
/// on such an outcome is to `Failed` carrying `ExecutionFailure` with the
/// captured standard error.
pub proof fn lemma_execution_failure_signs_nothing(
    request: MLRequest,
    outcome: ProcessOutcome,
    post: Stage,
)
    requires
        !outcome.is_success(),
        next(Stage::Invoking { request }, Event::ProcessFinished { outcome }, post),
    ensures
        post == (Stage::Failed {
            error: PipelineError::ExecutionFailure { stderr: outcome.stderr },
        }),
{
}

/// Malformed output is rejected before anything is signed: output of a
/// successful run that is not valid text fails with `EncodingError`, and
/// valid text that does not match the schema fails with `SchemaError`.
pub proof fn lemma_malformed_output_rejected(
    request: MLRequest,
    outcome: ProcessOutcome,
    post: Stage,
)
    requires
        outcome.is_success(),
        next(Stage::Invoking { request }, Event::ProcessFinished { outcome }, post),
    ensures
        !is_utf8(outcome.stdout@) ==> post == (Stage::Failed {
            error: PipelineError::EncodingError,
        }),
        is_utf8(outcome.stdout@) && parse_spec(outcome.stdout@) is None ==> post == (Stage::Failed {
            error: PipelineError::SchemaError,
        }),
{
}

/// The machine is deterministic: a stage and an event admit at most one
/// next stage, so a request's outcome is fixed by what the outside world
/// reported and by nothing else.
pub proof fn lemma_next_deterministic(pre: Stage, event: Event, post_a: Stage, post_b: Stage)
    requires
        next(pre, event, post_a),
        next(pre, event, post_b),
    ensures
        post_a == post_b,
{
}

/// Failure is terminal: no event moves the machine out of `Failed`, so a
/// failed request can never reach `Completed` and never yields a signature.
pub proof fn lemma_failed_is_terminal(error: PipelineError, event: Event, post: Stage)
    ensures
        !next(Stage::Failed { error }, event, post),
{
}

/// Success is terminal too: a completed request takes no further event.
pub proof fn lemma_completed_is_terminal(signed: SignedAttestation, event: Event, post: Stage)
    ensures
        !next(Stage::Completed { signed }, event, post),
{
}

} // verus!
