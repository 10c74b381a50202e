//! The data carried across the API: filter parameters for listing buckets,
//! the request body for creating a bucket, and the typed results that a
//! successful response decodes into.

use vstd::prelude::*;

use crate::text::str_eq_chars;

verus! {

/// Filter parameters for the bucket listing operation. Every field is
/// optional; an absent field must not appear in the encoded query string.
/// The declared field order here is the order of the encoded query.
#[derive(Clone, Debug, PartialEq)]
pub struct ListBucketsRequest {
    /// The last bucket ID from which to seek from (but not including).
    /// This is to be used instead of `offset`.
    pub after: Option<String>,
    /// Only returns buckets with a specific ID.
    pub id: Option<String>,
    /// Number of buckets to return.
    pub limit: Option<u8>,
    /// Only returns buckets with a specific name.
    pub name: Option<String>,
    /// Offset from which to return buckets.
    pub offset: Option<u64>,
    /// The name of the organization.
    pub org: Option<String>,
    /// The organization ID; its wire name is `orgID`.
    pub org_id: Option<String>,
}

impl Default for ListBucketsRequest {
    /// The filter with every field absent.
    fn default() -> (r: Self)
        ensures
            r.after is None,
            r.id is None,
            r.limit is None,
            r.name is None,
            r.offset is None,
            r.org is None,
            r.org_id is None,
    {
        ListBucketsRequest {
            after: None,
            id: None,
            limit: None,
            name: None,
            offset: None,
            org: None,
            org_id: None,
        }
    }
}

/// One retention rule of a bucket: points expire after `every_seconds`.
#[derive(Clone, Copy, Debug, PartialEq, Eq, Structural)]
pub struct RetentionRule {
    /// Duration in seconds for how long data is kept.
    pub every_seconds: u64,
}

/// The body of a bucket creation request.
#[derive(Clone, Debug, PartialEq)]
pub struct PostBucketRequest {
    /// The ID of the organization that owns the bucket.
    pub org_id: String,
    /// The name of the bucket.
    pub name: String,
    /// The retention rules of the bucket; empty means infinite retention.
    pub retention_rules: Vec<RetentionRule>,
}

impl PostBucketRequest {
    /// A request for a bucket named `name` in organization `org_id`, with
    /// no retention rules.
    pub fn new(org_id: String, name: String) -> (r: Self)
        ensures
            r.org_id@ == org_id@,
            r.name@ == name@,
            r.retention_rules@ == Seq::<RetentionRule>::empty(),
    {
        let rules: Vec<RetentionRule> = Vec::new();
        PostBucketRequest { org_id, name, retention_rules: rules }
    }
}

impl Default for PostBucketRequest {
    /// The request with empty organization ID, empty name and no rules.
    fn default() -> (r: Self)
        ensures
            r.org_id@ == Seq::<char>::empty(),
            r.name@ == Seq::<char>::empty(),
            r.retention_rules@ == Seq::<RetentionRule>::empty(),
    {
        PostBucketRequest::new(String::new(), String::new())
    }
}

/// The health state a health check reports.
#[derive(Clone, Copy, Debug, PartialEq, Eq, Structural)]
pub enum HealthCheckStatus {
    /// The instance is healthy.
    Pass,
    /// The instance is unhealthy.
    Fail,
}

/// Decodes the wire form of a health state: `"pass"` and `"fail"` are the
/// two states; any other string is not a health state.
pub fn health_status_of(s: &str) -> (r: Option<HealthCheckStatus>)
    ensures
        s@ == "pass"@ ==> r == Some(HealthCheckStatus::Pass),
        s@ == "fail"@ ==> r == Some(HealthCheckStatus::Fail),
        s@ != "pass"@ && s@ != "fail"@ ==> r is None,
{
    proof {
        reveal_strlit("pass");
        reveal_strlit("fail");
        assert("pass"@[0] != "fail"@[0]);
        assert("pass"@ != "fail"@);
    }
    if str_eq_chars(s, "pass") {
        Some(HealthCheckStatus::Pass)
    } else if str_eq_chars(s, "fail") {
        Some(HealthCheckStatus::Fail)
    } else {
        None
    }
}

/// A decoded health record.
#[derive(Clone, Debug, PartialEq)]
pub struct HealthCheck {
    /// The name of the checked component.
    pub name: String,
    /// An optional human-readable message.
    pub message: Option<String>,
    /// The reported state.
    pub status: HealthCheckStatus,
}

/// One bucket of the bucket listing.
#[derive(Clone, Debug, PartialEq)]
pub struct Bucket {
    /// The bucket's ID, when the server reports one.
    pub id: Option<String>,
    /// The bucket's name.
    pub name: String,
    /// The ID of the owning organization, when the server reports one.
    pub org_id: Option<String>,
}

/// A decoded bucket listing.
#[derive(Clone, Debug, PartialEq)]
pub struct Buckets {
    /// The buckets matching the listing request.
    pub buckets: Vec<Bucket>,
}

} // verus!
