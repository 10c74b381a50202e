//! The request builder: assembles a fully formed outbound request from a
//! base URL, a method, a path, a query string, an optional body and the
//! client's token. Pure data assembly; no I/O happens here.

use vstd::prelude::*;

use crate::text::{chars_to_string, push_str_chars};

verus! {

/// The HTTP method of an outbound request.
#[derive(Clone, Copy, Debug, PartialEq, Eq, Structural)]
pub enum Method {
    Get,
    Post,
    Delete,
}

/// The value of the `Authorization` header: `Token <token>`, attached even
/// when the token is empty.
pub open spec fn auth_header_value(token: Seq<char>) -> Seq<char> {
    "Token "@ + token
}

/// The final URL: base, then path, then `?` and the query string — the
/// latter two only when the query string is not empty.
pub open spec fn full_url(base: Seq<char>, path: Seq<char>, query: Seq<char>) -> Seq<char> {
    if query.len() == 0 {
        base + path
    } else {
        base + path + seq!['?'] + query
    }
}

/// A fully formed outbound request, constructed fresh per call.
#[derive(Clone, Debug, PartialEq)]
pub struct OutboundRequest {
    /// The HTTP method.
    pub method: Method,
    /// The absolute URL, query string included.
    pub url: String,
    /// The value of the `Authorization` header.
    pub auth_header: String,
    /// The body, already serialized to its wire format by the caller.
    pub body: Option<String>,
}

/// Formats the `Authorization` header value for a token.
pub fn format_auth_header(token: &str) -> (r: String)
    ensures
        r@ == auth_header_value(token@),
{
    let mut out: Vec<char> = Vec::new();
    push_str_chars(&mut out, "Token ");
    push_str_chars(&mut out, token);
    chars_to_string(out)
}

/// Builds an outbound request. The body, when given, is set verbatim; this
/// layer does not re-serialize it.
pub fn build_request(
    method: Method,
    base_url: &str,
    path: &str,
    query: &str,
    body: Option<String>,
    token: &str,
) -> (r: OutboundRequest)
    ensures
        r.method == method,
        r.url@ == full_url(base_url@, path@, query@),
        r.auth_header@ == auth_header_value(token@),
        r.body == body,
{
    let mut out: Vec<char> = Vec::new();
    push_str_chars(&mut out, base_url);
    push_str_chars(&mut out, path);
    if !query.is_empty() {
        out.push('?');
        push_str_chars(&mut out, query);
    }
    proof {
        assert(out@ =~= full_url(base_url@, path@, query@));
    }
    let url = chars_to_string(out);
    let auth_header = format_auth_header(token);
    OutboundRequest { method, url, auth_header, body }
}

} // verus!
