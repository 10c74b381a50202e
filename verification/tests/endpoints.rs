//! Tests of the per-endpoint request and response halves: the exact URL,
//! method, authorization header and body of each outbound request, and
//! the classification of raw responses.

use influx_client::client::{
    create_bucket_response, delete_bucket_response, health_response, list_buckets_response,
    ready_response, Client,
};
use influx_client::models::{ListBucketsRequest, PostBucketRequest};
use influx_client::request::Method;
use influx_client::response::{RawResponse, RequestError};

fn raw(status: u16, body: &str) -> RawResponse {
    RawResponse { status, body: body.as_bytes().to_vec() }
}

#[test]
fn create_bucket() {
    let org_id = "0000111100001111".to_string();
    let bucket = "some-bucket".to_string();
    let token = "some-token";

    let client = Client::new("http://example.com", &org_id, token);
    let req = client.create_bucket_request(Some(PostBucketRequest::new(org_id.clone(), bucket.clone())));

    assert_eq!(req.method, Method::Post);
    assert_eq!(req.url, "http://example.com/api/v2/buckets");
    assert_eq!(req.auth_header, format!("Token {}", token));
    assert_eq!(
        req.body,
        Some(format!(
            r#"{{"orgID":"{}","name":"{}","retentionRules":[]}}"#,
            org_id, bucket
        ))
    );
}

#[test]
fn create_bucket_without_request_defaults_every_field() {
    let client = Client::new("http://example.com", "org", "");
    let req = client.create_bucket_request(None);
    assert_eq!(
        req.body,
        Some(r#"{"orgID":"","name":"","retentionRules":[]}"#.to_string())
    );
}

#[test]
fn create_bucket_escapes_json_strings() {
    let client = Client::new("http://example.com", "org", "");
    let req = client.create_bucket_request(Some(PostBucketRequest::new(
        "o".to_string(),
        "a\"b\\c\nd".to_string(),
    )));
    assert_eq!(
        req.body,
        Some("{\"orgID\":\"o\",\"name\":\"a\\\"b\\\\c\\nd\",\"retentionRules\":[]}".to_string())
    );
}

#[test]
fn create_bucket_response_accepts_any_2xx() {
    assert!(create_bucket_response(raw(201, "")).is_ok());
    match create_bucket_response(raw(422, "org not found")) {
        Err(RequestError::Http { status, text }) => {
            assert_eq!(status, 422);
            assert_eq!(text, "org not found");
        }
        other => panic!("expected an http error, got {:?}", other),
    }
}

#[test]
fn list_buckets_request_has_query() {
    let client = Client::new("http://example.com", "org", "tok");
    let filter = Some(ListBucketsRequest {
        name: Some("telemetry".to_string()),
        ..ListBucketsRequest::default()
    });
    let req = client.list_buckets_request(&filter);
    assert_eq!(req.method, Method::Get);
    assert_eq!(req.url, "http://example.com/api/v2/buckets?name=telemetry");
    assert_eq!(req.auth_header, "Token tok");
    assert_eq!(req.body, None);
}

#[test]
fn list_buckets_request_without_filter_has_no_question_mark() {
    let client = Client::new("http://example.com", "org", "tok");
    let req = client.list_buckets_request(&None);
    assert_eq!(req.url, "http://example.com/api/v2/buckets");
}

#[test]
fn list_buckets_response_hands_body_on_for_2xx() {
    let body = r#"{"buckets":[]}"#;
    assert_eq!(list_buckets_response(raw(200, body)).unwrap(), body.as_bytes().to_vec());
    match list_buckets_response(raw(404, "no such org")) {
        Err(RequestError::Http { status, text }) => {
            assert_eq!(status, 404);
            assert_eq!(text, "no such org");
        }
        other => panic!("expected an http error, got {:?}", other),
    }
}

#[test]
fn delete_bucket() {
    let client = Client::new("http://example.com", "org", "tok");
    let req = client.delete_bucket_request("abc");
    assert_eq!(req.method, Method::Delete);
    assert_eq!(req.url, "http://example.com/api/v2/buckets/abc");
    assert_eq!(req.auth_header, "Token tok");
    assert_eq!(req.body, None);

    assert!(delete_bucket_response(raw(204, "")).is_ok());
    match delete_bucket_response(raw(404, "bucket not found")) {
        Err(RequestError::Http { status, text }) => {
            assert_eq!(status, 404);
            assert_eq!(text, "bucket not found");
        }
        other => panic!("expected an http error, got {:?}", other),
    }
}

#[test]
fn delete_bucket_path_escapes_the_id() {
    let client = Client::new("http://example.com", "org", "tok");
    let req = client.delete_bucket_request("a/b c");
    assert_eq!(req.url, "http://example.com/api/v2/buckets/a%2Fb%20c");
}

#[test]
fn health() {
    let client = Client::new("http://example.com", "", "");
    let req = client.health_request();
    assert_eq!(req.method, Method::Get);
    assert_eq!(req.url, "http://example.com/health");
    assert_eq!(req.auth_header, "Token ");
    assert_eq!(req.body, None);
}

#[test]
fn health_response_decodes_200_and_503() {
    let body = r#"{"name":"influxdb","status":"pass"}"#;
    assert_eq!(health_response(raw(200, body)).unwrap(), body.as_bytes().to_vec());
    let degraded = r#"{"name":"influxdb","status":"fail"}"#;
    assert_eq!(health_response(raw(503, degraded)).unwrap(), degraded.as_bytes().to_vec());
    match health_response(raw(500, "boom")) {
        Err(RequestError::Http { status, text }) => {
            assert_eq!(status, 500);
            assert_eq!(text, "boom");
        }
        other => panic!("expected an http error, got {:?}", other),
    }
}

#[test]
fn ready() {
    let client = Client::new("http://example.com", "org", "");
    let req = client.ready_request();
    assert_eq!(req.method, Method::Get);
    assert_eq!(req.url, "http://example.com/ready");
    assert_eq!(req.auth_header, "Token ");
    assert_eq!(req.body, None);
}

#[test]
fn ready_response_is_true_only_for_200() {
    assert_eq!(ready_response(raw(200, "ready for queries and writes")).unwrap(), true);
    match ready_response(raw(503, "not ready")) {
        Err(RequestError::Http { status, text }) => {
            assert_eq!(status, 503);
            assert_eq!(text, "not ready");
        }
        other => panic!("expected an http error, got {:?}", other),
    }
    // Even another success code is not "ready".
    assert!(ready_response(raw(204, "")).is_err());
}
