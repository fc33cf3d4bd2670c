use attest_pipeline::encode::canonical_message;
use attest_pipeline::pipeline::step;
use attest_pipeline::pipeline::validate_and_parse;
use attest_pipeline::pipeline::Action;
use attest_pipeline::pipeline::Event;
use attest_pipeline::pipeline::Stage;
use attest_pipeline::types::MLRequest;
use attest_pipeline::types::MLResponse;
use attest_pipeline::types::PipelineError;
use attest_pipeline::types::ProcessOutcome;

fn outcome(exit_code: Option<i32>, stdout: &[u8], stderr: &[u8]) -> ProcessOutcome {
    ProcessOutcome { exit_code, stdout: stdout.to_vec(), stderr: stderr.to_vec() }
}

#[test]
fn happy_path_attests_parsed_result_exactly() {
    let request = MLRequest { data_path: "input.csv".to_owned() };
    let (s1, a1) = step(Stage::Received { request }, Event::Start);
    match &a1 {
        Action::RunProcess { program, argument } => {
            assert_eq!(program, "/ml_task.bin");
            assert_eq!(argument, "input.csv");
        },
        _ => panic!("expected a launch action"),
    }
    assert!(matches!(s1, Stage::Invoking { .. }));

    let finished = outcome(Some(0), b"{\"accuracy\": 97, \"loss\": 3}", b"");
    let (s2, a2) = step(s1, Event::ProcessFinished { outcome: finished });
    assert!(matches!(a2, Action::ReadClock));
    assert!(matches!(s2, Stage::Attesting { .. }));

    let (s3, a3) = step(s2, Event::ClockRead { timestamp_ms: 1700000000000 });
    let message = match a3 {
        Action::SignMessage { message } => message,
        _ => panic!("expected a signing action"),
    };
    assert!(matches!(s3, Stage::Signing { .. }));

    let (s4, a4) = step(s3, Event::SignatureProduced { signature: message.clone() });
    assert!(matches!(a4, Action::Respond));
    match s4 {
        Stage::Completed { signed } => {
            assert_eq!(signed.attestation.result, MLResponse { accuracy: 97, loss: 3 });
            assert_eq!(signed.attestation.timestamp_ms, 1700000000000);
            // verification: recompute the canonical bytes of what came back
            // and compare against what was signed over
            assert_eq!(canonical_message(&signed.attestation), message);
            assert_eq!(signed.signature, message);
        },
        _ => panic!("expected completion"),
    }
}

#[test]
fn shell_metacharacters_stay_literal_data() {
    let hostile = "; rm -rf / $(whoami) `id` | cat &&";
    let request = MLRequest { data_path: hostile.to_owned() };
    let (_, action) = step(Stage::Received { request }, Event::Start);
    match action {
        Action::RunProcess { program, argument } => {
            // the program is the fixed executable, untouched by the payload,
            // and the payload travels as one literal argument value
            assert_eq!(program, "/ml_task.bin");
            assert_eq!(argument, hostile);
        },
        _ => panic!("expected a launch action"),
    }
}

#[test]
fn nonzero_exit_fails_with_execution_failure() {
    let request = MLRequest { data_path: "x".to_owned() };
    let failed = outcome(Some(1), b"{\"accuracy\": 1, \"loss\": 2}", b"boom");
    let (s, a) = step(Stage::Invoking { request }, Event::ProcessFinished { outcome: failed });
    assert!(matches!(a, Action::Respond));
    match s {
        Stage::Failed { error: PipelineError::ExecutionFailure { stderr } } => {
            assert_eq!(stderr, b"boom".to_vec());
        },
        _ => panic!("expected an execution failure"),
    }
}

#[test]
fn signal_killed_process_fails_with_execution_failure() {
    let killed = outcome(None, b"{\"accuracy\": 1, \"loss\": 2}", b"");
    let r = validate_and_parse(killed);
    assert!(matches!(r, Err(PipelineError::ExecutionFailure { .. })));
}

#[test]
fn invalid_text_fails_with_encoding_error() {
    let bad_text = outcome(Some(0), &[0xFF, 0xFE, b'{', b'}'], b"");
    let r = validate_and_parse(bad_text);
    assert!(matches!(r, Err(PipelineError::EncodingError)));
}

#[test]
fn valid_text_wrong_shape_fails_with_schema_error() {
    let bad_shape = outcome(Some(0), b"{\"accuracy\": \"high\"}", b"");
    let r = validate_and_parse(bad_shape);
    assert!(matches!(r, Err(PipelineError::SchemaError)));
}

#[test]
fn valid_output_parses_exactly() {
    let good = outcome(Some(0), b"{\"loss\": 11, \"accuracy\": 89}", b"ignored");
    let r = validate_and_parse(good);
    match r {
        Ok(v) => assert_eq!(v, MLResponse { accuracy: 89, loss: 11 }),
        Err(_) => panic!("expected a parsed result"),
    }
}

#[test]
fn launch_failure_reaches_failed_stage() {
    let request = MLRequest { data_path: "x".to_owned() };
    let (s, a) = step(
        Stage::Invoking { request },
        Event::ProcessLaunchFailed { message: "no such file".to_owned() },
    );
    assert!(matches!(a, Action::Respond));
    match s {
        Stage::Failed { error: PipelineError::LaunchFailure { message } } => {
            assert_eq!(message, "no such file");
        },
        _ => panic!("expected a launch failure"),
    }
}

#[test]
fn clock_failure_reaches_failed_stage() {
    let (s, a) = step(
        Stage::Attesting { result: MLResponse { accuracy: 1, loss: 2 } },
        Event::ClockUnavailable,
    );
    assert!(matches!(a, Action::Respond));
    assert!(matches!(s, Stage::Failed { error: PipelineError::ClockError }));
}

#[test]
fn signer_failure_reaches_failed_stage() {
    let request = MLRequest { data_path: "x".to_owned() };
    let (s1, _) = step(Stage::Received { request }, Event::Start);
    let good = outcome(Some(0), b"{\"accuracy\": 5, \"loss\": 6}", b"");
    let (s2, _) = step(s1, Event::ProcessFinished { outcome: good });
    let (s3, _) = step(s2, Event::ClockRead { timestamp_ms: 7 });
    let (s4, a) = step(s3, Event::SignerFailed);
    assert!(matches!(a, Action::Respond));
    assert!(matches!(s4, Stage::Failed { error: PipelineError::SigningError }));
}
