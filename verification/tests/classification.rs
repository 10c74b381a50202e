//! Tests of the generic response classifier, the decode-outcome mapping,
//! the retention-rule body, and the building blocks they share.

use influx_client::json::encode_post_bucket;
use influx_client::models::{
    health_status_of, Bucket, Buckets, HealthCheck, HealthCheckStatus, PostBucketRequest,
    RetentionRule,
};
use influx_client::request::format_auth_header;
use influx_client::response::{classify, decoded_outcome, RawResponse, RequestError, StatusPolicy};

#[test]
fn classify_hands_the_body_back_on_accepted_status() {
    let raw = RawResponse { status: 200, body: vec![1, 2, 3] };
    assert_eq!(classify(StatusPolicy::AnySuccess, raw).unwrap(), vec![1, 2, 3]);
}

#[test]
fn classify_captures_status_and_text_otherwise() {
    let raw = RawResponse { status: 418, body: "short and stout".as_bytes().to_vec() };
    let err = classify(StatusPolicy::AnySuccess, raw).unwrap_err();
    assert_eq!(err.status, 418);
    assert_eq!(err.text, "short and stout");
}

#[test]
fn classify_text_is_best_effort_for_invalid_utf8() {
    let raw = RawResponse { status: 500, body: vec![0xff, 0x61] };
    let err = classify(StatusPolicy::AnySuccess, raw).unwrap_err();
    assert_eq!(err.text, "\u{fffd}a");
}

#[test]
fn exactly_ok_rejects_other_success_codes() {
    let raw = RawResponse { status: 204, body: Vec::new() };
    assert!(classify(StatusPolicy::ExactlyOk, raw).is_err());
}

#[test]
fn ok_or_unavailable_accepts_503_but_not_502() {
    let raw = RawResponse { status: 503, body: Vec::new() };
    assert!(classify(StatusPolicy::OkOrUnavailable, raw).is_ok());
    let raw = RawResponse { status: 502, body: Vec::new() };
    assert!(classify(StatusPolicy::OkOrUnavailable, raw).is_err());
}

#[test]
fn decoded_outcome_keeps_the_value() {
    let decoded: Result<HealthCheck, String> = Ok(HealthCheck {
        name: "influxdb".to_string(),
        message: None,
        status: HealthCheckStatus::Pass,
    });
    let out = decoded_outcome(decoded).unwrap();
    assert_eq!(out.name, "influxdb");
    assert_eq!(out.status, HealthCheckStatus::Pass);
}

#[test]
fn decoded_outcome_turns_failure_into_serialization_error() {
    let decoded: Result<Buckets, String> = Err("missing field `name`".to_string());
    match decoded_outcome(decoded) {
        Err(RequestError::Serialization { text }) => {
            assert_eq!(text, "missing field `name`");
        }
        other => panic!("expected a serialization error, got {:?}", other),
    }
}

#[test]
fn bucket_fields_round_trip() {
    let b = Bucket {
        id: Some("0123".to_string()),
        name: "telemetry".to_string(),
        org_id: None,
    };
    let all = Buckets { buckets: vec![b.clone()] };
    assert_eq!(all.buckets[0], b);
}

#[test]
fn health_status_decodes_pass_and_fail_only() {
    assert_eq!(health_status_of("pass"), Some(HealthCheckStatus::Pass));
    assert_eq!(health_status_of("fail"), Some(HealthCheckStatus::Fail));
    assert_eq!(health_status_of("warn"), None);
    assert_eq!(health_status_of(""), None);
}

#[test]
fn auth_header_is_attached_even_for_an_empty_token() {
    assert_eq!(format_auth_header(""), "Token ");
    assert_eq!(format_auth_header("some-token"), "Token some-token");
}

#[test]
fn retention_rules_serialize_with_their_wire_names() {
    let mut req = PostBucketRequest::new("o".to_string(), "b".to_string());
    req.retention_rules = vec![
        RetentionRule { every_seconds: 3600 },
        RetentionRule { every_seconds: 0 },
    ];
    let expected = "{\"orgID\":\"o\",\"name\":\"b\",\"retentionRules\":[{\"type\":\"expire\",\"everySeconds\":3600},{\"type\":\"expire\",\"everySeconds\":0}]}";
    assert_eq!(encode_post_bucket(&req), expected);
}
