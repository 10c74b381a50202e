//! The client facade: holds the credentials and composes the query
//! encoder, the request builder and the response classifier for each
//! remote operation. Every operation splits into a pure request-building
//! half and a pure response-classifying half; the network transport in
//! between is the caller's.

use vstd::prelude::*;
use vstd::string::StringExecFns;

use crate::json::{encode_post_bucket, post_bucket_body, post_bucket_json};
use crate::models::{ListBucketsRequest, PostBucketRequest, RetentionRule};
use crate::query::{encode_query, encoded_query};
use crate::request::{auth_header_value, build_request, full_url, Method, OutboundRequest};
use crate::response::{
    classify, lossy_utf8, RawResponse, RequestError, StatusPolicy,
};
use crate::text::{chars_to_string, percent_encoding_of, push_percent_encoded, push_str_chars};

verus! {

/// A client of one server instance: the base endpoint URL, the
/// organization, and the API token. Immutable after construction and safe
/// to share read-only across concurrent callers.
#[derive(Clone, Debug, PartialEq)]
pub struct Client {
    /// The base endpoint URL, without a trailing path.
    pub base_url: String,
    /// The name of the organization the client acts in.
    pub org: String,
    /// The API token attached to every request.
    pub token: String,
}

impl Client {
    /// A client for the instance at `url`, acting as `org` with `token`.
    pub fn new(url: &str, org: &str, token: &str) -> (r: Self)
        ensures
            r.base_url@ == url@,
            r.org@ == org@,
            r.token@ == token@,
    {
        Client {
            base_url: String::from_str(url),
            org: String::from_str(org),
            token: String::from_str(token),
        }
    }

    /// The absolute URL of `path` under the client's base endpoint URL.
    pub fn url(&self, path: &str) -> (r: String)
        ensures
            r@ == self.base_url@ + path@,
    {
        let mut out: Vec<char> = Vec::new();
        push_str_chars(&mut out, self.base_url.as_str());
        push_str_chars(&mut out, path);
        chars_to_string(out)
    }

    /// The request half of listing buckets: `GET /api/v2/buckets` with the
    /// filter encoded into the query string.
    pub fn list_buckets_request(&self, filter: &Option<ListBucketsRequest>) -> (r: OutboundRequest)
        ensures
            r.method == Method::Get,
            r.url@ == full_url(self.base_url@, "/api/v2/buckets"@, encoded_query(*filter)),
            r.auth_header@ == auth_header_value(self.token@),
            r.body is None,
    {
        let q = encode_query(filter);
        build_request(
            Method::Get,
            self.base_url.as_str(),
            "/api/v2/buckets",
            q.as_str(),
            None,
            self.token.as_str(),
        )
    }

    /// The request half of creating a bucket: `POST /api/v2/buckets` with
    /// the request serialized as its exact JSON body; an absent request
    /// serializes with every field defaulted.
    pub fn create_bucket_request(&self, req: Option<PostBucketRequest>) -> (r: OutboundRequest)
        ensures
            r.method == Method::Post,
            r.url@ == full_url(self.base_url@, "/api/v2/buckets"@, Seq::<char>::empty()),
            r.auth_header@ == auth_header_value(self.token@),
            req matches Some(p) ==> (r.body matches Some(b) && b@ == post_bucket_body(p)),
            req is None ==> (r.body matches Some(b) && b@ == post_bucket_json(
                Seq::<char>::empty(),
                Seq::<char>::empty(),
                Seq::<RetentionRule>::empty(),
            )),
    {
        let p = match req {
            Some(p) => p,
            None => PostBucketRequest::default(),
        };
        let body = encode_post_bucket(&p);
        proof {
            reveal_strlit("");
            assert(""@ =~= Seq::<char>::empty());
        }
        build_request(
            Method::Post,
            self.base_url.as_str(),
            "/api/v2/buckets",
            "",
            Some(body),
            self.token.as_str(),
        )
    }

    /// The request half of deleting a bucket: `DELETE
    /// /api/v2/buckets/{bucket_id}`, with the bucket ID path-escaped.
    pub fn delete_bucket_request(&self, bucket_id: &str) -> (r: OutboundRequest)
        ensures
            r.method == Method::Delete,
            r.url@ == full_url(
                self.base_url@,
                "/api/v2/buckets/"@ + percent_encoding_of(bucket_id@),
                Seq::<char>::empty(),
            ),
            r.auth_header@ == auth_header_value(self.token@),
            r.body is None,
    {
        let mut path: Vec<char> = Vec::new();
        push_str_chars(&mut path, "/api/v2/buckets/");
        push_percent_encoded(&mut path, bucket_id);
        let path_str = chars_to_string(path);
        proof {
            reveal_strlit("");
            assert(""@ =~= Seq::<char>::empty());
        }
        build_request(
            Method::Delete,
            self.base_url.as_str(),
            path_str.as_str(),
            "",
            None,
            self.token.as_str(),
        )
    }

    /// The request half of the health check: `GET /health`.
    pub fn health_request(&self) -> (r: OutboundRequest)
        ensures
            r.method == Method::Get,
            r.url@ == full_url(self.base_url@, "/health"@, Seq::<char>::empty()),
            r.auth_header@ == auth_header_value(self.token@),
            r.body is None,
    {
        proof {
            reveal_strlit("");
            assert(""@ =~= Seq::<char>::empty());
        }
        build_request(
            Method::Get,
            self.base_url.as_str(),
            "/health",
            "",
            None,
            self.token.as_str(),
        )
    }

    /// The request half of the readiness check: `GET /ready`.
    pub fn ready_request(&self) -> (r: OutboundRequest)
        ensures
            r.method == Method::Get,
            r.url@ == full_url(self.base_url@, "/ready"@, Seq::<char>::empty()),
            r.auth_header@ == auth_header_value(self.token@),
            r.body is None,
    {
        proof {
            reveal_strlit("");
            assert(""@ =~= Seq::<char>::empty());
        }
        build_request(
            Method::Get,
            self.base_url.as_str(),
            "/ready",
            "",
            None,
            self.token.as_str(),
        )
    }
}

/// The response half of listing buckets: any 2xx status hands the body on
/// for decoding, anything else is the server's error, kept verbatim.
pub fn list_buckets_response(raw: RawResponse) -> (r: Result<Vec<u8>, RequestError>)
    ensures
        200 <= raw.status < 300 ==> (r matches Ok(b) && b@ == raw.body@),
        !(200 <= raw.status < 300) ==> (r matches Err(e) && e matches RequestError::Http {
            status,
            text,
        } && status == raw.status && text@ == lossy_utf8(raw.body@)),
{
    match classify(StatusPolicy::AnySuccess, raw) {
        Ok(b) => Ok(b),
        Err(e) => Err(RequestError::Http { status: e.status, text: e.text }),
    }
}

/// The response half of creating a bucket: any 2xx status is bare success,
/// anything else is the server's error, kept verbatim.
pub fn create_bucket_response(raw: RawResponse) -> (r: Result<(), RequestError>)
    ensures
        200 <= raw.status < 300 ==> r is Ok,
        !(200 <= raw.status < 300) ==> (r matches Err(e) && e matches RequestError::Http {
            status,
            text,
        } && status == raw.status && text@ == lossy_utf8(raw.body@)),
{
    match classify(StatusPolicy::AnySuccess, raw) {
        Ok(_) => Ok(()),
        Err(e) => Err(RequestError::Http { status: e.status, text: e.text }),
    }
}

/// The response half of deleting a bucket: any 2xx status is bare success;
/// on any other status the server's error propagates with the response's
/// status and text, and no retry happens.
pub fn delete_bucket_response(raw: RawResponse) -> (r: Result<(), RequestError>)
    ensures
        200 <= raw.status < 300 ==> r is Ok,
        !(200 <= raw.status < 300) ==> (r matches Err(e) && e matches RequestError::Http {
            status,
            text,
        } && status == raw.status && text@ == lossy_utf8(raw.body@)),
{
    match classify(StatusPolicy::AnySuccess, raw) {
        Ok(_) => Ok(()),
        Err(e) => Err(RequestError::Http { status: e.status, text: e.text }),
    }
}

/// The response half of the health check: 200 and 503 both hand the body
/// on for decoding — degraded health is a decodable state, not an error —
/// while every other status, 2xx or not, is the server's error.
pub fn health_response(raw: RawResponse) -> (r: Result<Vec<u8>, RequestError>)
    ensures
        raw.status == 200 || raw.status == 503 ==> (r matches Ok(b) && b@ == raw.body@),
        !(raw.status == 200 || raw.status == 503) ==> (r matches Err(e)
            && e matches RequestError::Http { status, text } && status == raw.status && text@
            == lossy_utf8(raw.body@)),
{
    match classify(StatusPolicy::OkOrUnavailable, raw) {
        Ok(b) => Ok(b),
        Err(e) => Err(RequestError::Http { status: e.status, text: e.text }),
    }
}

/// The response half of the readiness check: exactly 200 means ready; any
/// other status — other 2xx codes included — is the server's error with
/// that status and the body text.
pub fn ready_response(raw: RawResponse) -> (r: Result<bool, RequestError>)
    ensures
        raw.status == 200 ==> r == Ok::<bool, RequestError>(true),
        raw.status != 200 ==> (r matches Err(e) && e matches RequestError::Http { status, text }
            && status == raw.status && text@ == lossy_utf8(raw.body@)),
{
    match classify(StatusPolicy::ExactlyOk, raw) {
        Ok(_) => Ok(true),
        Err(e) => Err(RequestError::Http { status: e.status, text: e.text }),
    }
}

} // verus!
