//! The query encoder: turns an optional [`ListBucketsRequest`] into a URL
//! query string. Absent fields stay out, present fields appear in declared
//! field order under their wire names, and values are percent-encoded.

use vstd::prelude::*;

use crate::models::ListBucketsRequest;
use crate::text::{
    chars_to_string, dec_digits, join_with, lemma_join_with_snoc, percent_encoding_of,
    push_dec_u64, push_percent_encoded, push_str_chars,
};

verus! {

/// One `key=value` query pair with a percent-encoded text value.
pub open spec fn text_pair(key: Seq<char>, v: Seq<char>) -> Seq<char> {
    key + seq!['='] + percent_encoding_of(v)
}

/// One `key=value` query pair with a decimal numeric value.
pub open spec fn number_pair(key: Seq<char>, n: nat) -> Seq<char> {
    key + seq!['='] + dec_digits(n)
}

/// No piece for an absent text field, one pair for a present one.
pub open spec fn opt_text_pieces(key: Seq<char>, v: Option<String>) -> Seq<Seq<char>> {
    match v {
        None => seq![],
        Some(s) => seq![text_pair(key, s@)],
    }
}

/// No piece for an absent `u8` field, one pair for a present one.
pub open spec fn opt_u8_pieces(key: Seq<char>, v: Option<u8>) -> Seq<Seq<char>> {
    match v {
        None => seq![],
        Some(n) => seq![number_pair(key, n as nat)],
    }
}

/// No piece for an absent `u64` field, one pair for a present one.
pub open spec fn opt_u64_pieces(key: Seq<char>, v: Option<u64>) -> Seq<Seq<char>> {
    match v {
        None => seq![],
        Some(n) => seq![number_pair(key, n as nat)],
    }
}

/// The `key=value` pieces of a filter, in declared field order, under the
/// fields' wire names.
pub open spec fn query_pieces(r: ListBucketsRequest) -> Seq<Seq<char>> {
    opt_text_pieces("after"@, r.after) + opt_text_pieces("id"@, r.id) + opt_u8_pieces(
        "limit"@,
        r.limit,
    ) + opt_text_pieces("name"@, r.name) + opt_u64_pieces("offset"@, r.offset) + opt_text_pieces(
        "org"@,
        r.org,
    ) + opt_text_pieces("orgID"@, r.org_id)
}

/// The encoded query string of an optional filter: the pieces joined by
/// `&`, and empty when the filter is absent or has no present field.
pub open spec fn encoded_query(r: Option<ListBucketsRequest>) -> Seq<char> {
    match r {
        None => seq![],
        Some(x) => join_with(query_pieces(x), '&'),
    }
}

/// A `&` separator exactly when a piece came before.
pub open spec fn sep_if(any: bool) -> Seq<char> {
    if any {
        seq!['&']
    } else {
        seq![]
    }
}

/// Appends `key=value` for a text field, preceded by `&` when `any`.
fn push_text_pair(out: &mut Vec<char>, any: bool, key: &str, v: &str)
    ensures
        final(out)@ == old(out)@ + sep_if(any) + text_pair(key@, v@),
{
    if any {
        out.push('&');
    }
    push_str_chars(out, key);
    out.push('=');
    push_percent_encoded(out, v);
}

/// Appends `key=value` for a numeric field, preceded by `&` when `any`.
fn push_number_pair(out: &mut Vec<char>, any: bool, key: &str, n: u64)
    ensures
        final(out)@ == old(out)@ + sep_if(any) + number_pair(key@, n as nat),
{
    if any {
        out.push('&');
    }
    push_str_chars(out, key);
    out.push('=');
    push_dec_u64(out, n);
}

/// Encodes an optional filter into its query string.
#[verifier::rlimit(60)]
pub fn encode_query(filter: &Option<ListBucketsRequest>) -> (r: String)
    ensures
        r@ == encoded_query(*filter),
{
    match filter {
        None => {
            let r = String::new();
            proof {
                assert(encoded_query(*filter) =~= Seq::<char>::empty());
            }
            r
        },
        Some(req) => {
            let mut out: Vec<char> = Vec::new();
            let mut any: bool = false;
            let ghost mut ps: Seq<Seq<char>> = Seq::empty();
            assert(out@ =~= join_with(ps, '&'));
            if let Some(v) = &req.after {
                proof {
                    lemma_join_with_snoc(ps, text_pair("after"@, v@), '&');
                }
                push_text_pair(&mut out, any, "after", v.as_str());
                proof {
                    ps = ps.push(text_pair("after"@, v@));
                    assert(out@ =~= join_with(ps, '&'));
                }
                any = true;
            }
            assert(out@ == join_with(ps, '&'));
            assert(any <==> ps.len() > 0);
            if let Some(v) = &req.id {
                proof {
                    lemma_join_with_snoc(ps, text_pair("id"@, v@), '&');
                }
                push_text_pair(&mut out, any, "id", v.as_str());
                proof {
                    ps = ps.push(text_pair("id"@, v@));
                    assert(out@ =~= join_with(ps, '&'));
                }
                any = true;
            }
            assert(out@ == join_with(ps, '&'));
            assert(any <==> ps.len() > 0);
            if let Some(v) = &req.limit {
                proof {
                    lemma_join_with_snoc(ps, number_pair("limit"@, *v as nat), '&');
                }
                push_number_pair(&mut out, any, "limit", *v as u64);
                proof {
                    ps = ps.push(number_pair("limit"@, *v as nat));
                    assert(out@ =~= join_with(ps, '&'));
                }
                any = true;
            }
            assert(out@ == join_with(ps, '&'));
            assert(any <==> ps.len() > 0);
            if let Some(v) = &req.name {
                proof {
                    lemma_join_with_snoc(ps, text_pair("name"@, v@), '&');
                }
                push_text_pair(&mut out, any, "name", v.as_str());
                proof {
                    ps = ps.push(text_pair("name"@, v@));
                    assert(out@ =~= join_with(ps, '&'));
                }
                any = true;
            }
            assert(out@ == join_with(ps, '&'));
            assert(any <==> ps.len() > 0);
            if let Some(v) = &req.offset {
                proof {
                    lemma_join_with_snoc(ps, number_pair("offset"@, *v as nat), '&');
                }
                push_number_pair(&mut out, any, "offset", *v);
                proof {
                    ps = ps.push(number_pair("offset"@, *v as nat));
                    assert(out@ =~= join_with(ps, '&'));
                }
                any = true;
            }
            assert(out@ == join_with(ps, '&'));
            assert(any <==> ps.len() > 0);
            if let Some(v) = &req.org {
                proof {
                    lemma_join_with_snoc(ps, text_pair("org"@, v@), '&');
                }
                push_text_pair(&mut out, any, "org", v.as_str());
                proof {
                    ps = ps.push(text_pair("org"@, v@));
                    assert(out@ =~= join_with(ps, '&'));
                }
                any = true;
            }
            assert(out@ == join_with(ps, '&'));
            assert(any <==> ps.len() > 0);
            if let Some(v) = &req.org_id {
                proof {
                    lemma_join_with_snoc(ps, text_pair("orgID"@, v@), '&');
                }
                push_text_pair(&mut out, any, "orgID", v.as_str());
                proof {
                    ps = ps.push(text_pair("orgID"@, v@));
                    assert(out@ =~= join_with(ps, '&'));
                }
                any = true;
            }
            assert(out@ == join_with(ps, '&'));
            proof {
                assert(ps =~= query_pieces(*req));
            }
            chars_to_string(out)
        },
    }
}

/// A filter with every field absent encodes to the empty query string.
pub proof fn lemma_all_absent_encodes_empty(r: ListBucketsRequest)
    requires
        r.after is None,
        r.id is None,
        r.limit is None,
        r.name is None,
        r.offset is None,
        r.org is None,
        r.org_id is None,
    ensures
        encoded_query(Some(r)) == Seq::<char>::empty(),
{
    assert(query_pieces(r) =~= Seq::<Seq<char>>::empty());
    assert(encoded_query(Some(r)) =~= Seq::<char>::empty());
}

/// A filter whose only present field is `org_id` encodes to exactly
/// `orgID=<value>`, with the value percent-encoded: the field appears under
/// its wire name, and nothing else appears.
pub proof fn lemma_org_id_alone(r: ListBucketsRequest, v: String)
    requires
        r.after is None,
        r.id is None,
        r.limit is None,
        r.name is None,
        r.offset is None,
        r.org is None,
        r.org_id == Some(v),
    ensures
        encoded_query(Some(r)) == "orgID"@ + seq!['='] + percent_encoding_of(v@),
{
    assert(query_pieces(r) =~= seq![text_pair("orgID"@, v@)]);
    assert(join_with(query_pieces(r), '&') == text_pair("orgID"@, v@));
    assert(encoded_query(Some(r)) =~= "orgID"@ + seq!['='] + percent_encoding_of(v@));
}

} // verus!
