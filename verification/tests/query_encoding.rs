//! Tests of the query encoder: absent fields stay out, present fields
//! appear in declared order under their wire names, values are
//! percent-encoded, numbers print as decimal text.

use influx_client::models::ListBucketsRequest;
use influx_client::query::encode_query;

fn empty_filter() -> ListBucketsRequest {
    ListBucketsRequest {
        after: None,
        id: None,
        limit: None,
        name: None,
        offset: None,
        org: None,
        org_id: None,
    }
}

#[test]
fn serialize_empty_list_buckets_request() {
    let request: Option<ListBucketsRequest> = None;
    assert_eq!(encode_query(&request), "");
}

#[test]
fn all_fields_absent_encodes_empty() {
    let request = Some(empty_filter());
    assert_eq!(encode_query(&request), "");
}

#[test]
fn default_filter_encodes_empty() {
    let request = Some(ListBucketsRequest::default());
    assert_eq!(encode_query(&request), "");
}

#[test]
fn org_id_uses_wire_name() {
    let request = Some(ListBucketsRequest {
        org_id: Some("0000111100001111".to_string()),
        ..empty_filter()
    });
    assert_eq!(encode_query(&request), "orgID=0000111100001111");
}

#[test]
fn fields_appear_in_declared_order() {
    let request = Some(ListBucketsRequest {
        after: Some("a1".to_string()),
        limit: Some(20),
        offset: Some(100),
        org: Some("my-org".to_string()),
        ..empty_filter()
    });
    assert_eq!(encode_query(&request), "after=a1&limit=20&offset=100&org=my-org");
}

#[test]
fn numeric_bounds_encode_as_decimal() {
    let request = Some(ListBucketsRequest {
        limit: Some(u8::MAX),
        offset: Some(u64::MAX),
        ..empty_filter()
    });
    assert_eq!(encode_query(&request), "limit=255&offset=18446744073709551615");
}

#[test]
fn zero_encodes_as_single_digit() {
    let request = Some(ListBucketsRequest {
        offset: Some(0),
        ..empty_filter()
    });
    assert_eq!(encode_query(&request), "offset=0");
}

#[test]
fn reserved_characters_are_percent_encoded() {
    let request = Some(ListBucketsRequest {
        name: Some("a b&c=d/e".to_string()),
        ..empty_filter()
    });
    assert_eq!(encode_query(&request), "name=a%20b%26c%3Dd%2Fe");
}

#[test]
fn unreserved_characters_stay_as_they_are() {
    let request = Some(ListBucketsRequest {
        name: Some("Az09-_.~".to_string()),
        ..empty_filter()
    });
    assert_eq!(encode_query(&request), "name=Az09-_.~");
}

#[test]
fn non_ascii_values_encode_their_utf8_bytes() {
    let request = Some(ListBucketsRequest {
        org: Some("b\u{fc}ro".to_string()),
        ..empty_filter()
    });
    assert_eq!(encode_query(&request), "org=b%C3%BCro");
}
