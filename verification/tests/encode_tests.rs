use attest_pipeline::encode::canonical_message;
use attest_pipeline::types::Attestation;
use attest_pipeline::types::IntentScope;
use attest_pipeline::types::MLResponse;

fn sample() -> Attestation {
    Attestation {
        result: MLResponse { accuracy: 0x0102030405060708, loss: 1 },
        timestamp_ms: 0x1122334455667788,
        intent_scope: IntentScope::ProcessData,
    }
}

#[test]
fn canonical_bytes_exact_layout() {
    let m = canonical_message(&sample());
    let expected: Vec<u8> = vec![
        0x00, // intent scope tag
        0x88, 0x77, 0x66, 0x55, 0x44, 0x33, 0x22, 0x11, // timestamp, little endian
        0x08, 0x07, 0x06, 0x05, 0x04, 0x03, 0x02, 0x01, // accuracy
        0x01, 0x00, 0x00, 0x00, 0x00, 0x00, 0x00, 0x00, // loss
    ];
    assert_eq!(m, expected);
}

#[test]
fn canonical_bytes_deterministic() {
    assert_eq!(canonical_message(&sample()), canonical_message(&sample()));
}

// A signature is bound to the canonical bytes: verification recomputes them
// and compares against what was signed. A stand-in signer that returns the
// message itself makes that comparison direct: any change to any field of
// the attestation must change the canonical bytes and so fail verification.
#[test]
fn any_field_change_breaks_verification() {
    let att = sample();
    let signed_over = canonical_message(&att);
    assert_eq!(canonical_message(&att), signed_over, "unmodified attestation verifies");

    let mut ts_flip = att;
    ts_flip.timestamp_ms ^= 1;
    assert_ne!(canonical_message(&ts_flip), signed_over);

    let mut acc_flip = att;
    acc_flip.result.accuracy ^= 1 << 63;
    assert_ne!(canonical_message(&acc_flip), signed_over);

    let mut loss_flip = att;
    loss_flip.result.loss += 1;
    assert_ne!(canonical_message(&loss_flip), signed_over);
}
