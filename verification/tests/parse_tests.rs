use attest_pipeline::parse::parse_ml_response;
use attest_pipeline::types::MLResponse;

#[test]
fn parse_plain_object() {
    let bytes: Vec<u8> = b"{\"accuracy\": 95, \"loss\": 5}".to_vec();
    assert_eq!(parse_ml_response(&bytes), Some(MLResponse { accuracy: 95, loss: 5 }));
}

#[test]
fn parse_fields_in_either_order() {
    let bytes: Vec<u8> = b"{\"loss\":2,\"accuracy\":1}".to_vec();
    assert_eq!(parse_ml_response(&bytes), Some(MLResponse { accuracy: 1, loss: 2 }));
}

#[test]
fn parse_tolerates_whitespace_and_extremes() {
    let bytes: Vec<u8> =
        b" \t\r\n{ \"accuracy\" : 0 , \"loss\" : 18446744073709551615 }\n ".to_vec();
    assert_eq!(
        parse_ml_response(&bytes),
        Some(MLResponse { accuracy: 0, loss: 18446744073709551615 })
    );
}

#[test]
fn parse_agrees_with_reference_json_parser() {
    let cases: Vec<&[u8]> = vec![
        b"{\"accuracy\": 95, \"loss\": 5}",
        b"{\"loss\":2,\"accuracy\":1}",
        b" { \"accuracy\" : 7 , \"loss\" : 18446744073709551615 } ",
    ];
    for c in cases {
        let ours = parse_ml_response(&c.to_vec()).expect("schema-valid input");
        let v: serde_json::Value = serde_json::from_slice(c).expect("valid json");
        assert_eq!(ours.accuracy, v["accuracy"].as_u64().expect("u64 accuracy"));
        assert_eq!(ours.loss, v["loss"].as_u64().expect("u64 loss"));
    }
}

#[test]
fn parse_rejects_malformed_inputs() {
    let cases: Vec<&[u8]> = vec![
        b"",
        b"null",
        b"{}",
        b"{\"accuracy\": 1}",
        b"{\"loss\": 1}",
        b"{\"accuracy\": 1, \"accuracy\": 2}",
        b"{\"loss\": 1, \"loss\": 2}",
        b"{\"accuracy\": 1, \"lossy\": 2}",
        b"{\"accuracy\": \"high\", \"loss\": 2}",
        b"{\"accuracy\": -1, \"loss\": 2}",
        b"{\"accuracy\": 1.5, \"loss\": 2}",
        b"{\"accuracy\": 1e3, \"loss\": 2}",
        b"{\"accuracy\": 01, \"loss\": 2}",
        b"{\"accuracy\": 18446744073709551616, \"loss\": 2}",
        b"{\"accuracy\": 1, \"loss\": 2",
        b"{\"accuracy\": 1, \"loss\": 2} trailing",
        b"{\"accuracy\": 1 \"loss\": 2}",
        b"{\"accuracy\": 1, \"loss\": }",
        b"[{\"accuracy\": 1, \"loss\": 2}]",
    ];
    for c in cases {
        assert_eq!(parse_ml_response(&c.to_vec()), None, "accepted {:?}", c);
    }
}

#[test]
fn parse_accepts_u64_boundary_and_rejects_just_above() {
    let max: Vec<u8> = b"{\"accuracy\": 18446744073709551615, \"loss\": 0}".to_vec();
    assert_eq!(
        parse_ml_response(&max),
        Some(MLResponse { accuracy: 18446744073709551615, loss: 0 })
    );
    let above: Vec<u8> = b"{\"accuracy\": 18446744073709551616, \"loss\": 0}".to_vec();
    assert_eq!(parse_ml_response(&above), None);
}

#[test]
fn parse_same_bytes_twice_is_identical() {
    let bytes: Vec<u8> = b"{\"accuracy\": 42, \"loss\": 58}".to_vec();
    let first = parse_ml_response(&bytes);
    let second = parse_ml_response(&bytes);
    assert_eq!(first, second);
    assert_eq!(first, Some(MLResponse { accuracy: 42, loss: 58 }));
}
