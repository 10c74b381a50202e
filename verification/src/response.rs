//! The response classifier: inspects a raw response's status code and
//! either hands the body on for decoding or captures status and body text
//! into a structured API error. Exactly one of the four terminal outcomes
//! — typed result, API error, transport error, serialization error — comes
//! out of every call.

use vstd::prelude::*;

verus! {

/// What `String::from_utf8_lossy` returns for the given bytes.
pub uninterp spec fn lossy_utf8(bytes: Seq<u8>) -> Seq<char>;

/// Relies on `String::from_utf8_lossy`: the result depends on the bytes
/// alone, and ASCII bytes decode to their own characters.
#[verifier::external_body]
fn body_text(bytes: &Vec<u8>) -> (r: String)
    ensures
        r@ == lossy_utf8(bytes@),
        (forall|i: int| 0 <= i < bytes@.len() ==> bytes@[i] < 128) ==> r@ == bytes@.map_values(
            |b: u8| b as char,
        ),
{
    String::from_utf8_lossy(bytes.as_slice()).into_owned()
}

/// A raw response: the status code and the fully buffered body.
#[derive(Clone, Debug, PartialEq)]
pub struct RawResponse {
    /// The HTTP status code.
    pub status: u16,
    /// The complete response body.
    pub body: Vec<u8>,
}

/// Which status codes an operation accepts as decodable success.
#[derive(Clone, Copy, Debug, PartialEq, Eq, Structural)]
pub enum StatusPolicy {
    /// Any status in the 2xx range.
    AnySuccess,
    /// Exactly 200, and nothing else — not even other 2xx codes.
    ExactlyOk,
    /// 200 or 503: a health check decodes its degraded state too.
    OkOrUnavailable,
}

/// Whether `status` counts as decodable success under `policy`.
pub open spec fn policy_accepts(policy: StatusPolicy, status: u16) -> bool {
    match policy {
        StatusPolicy::AnySuccess => 200 <= status < 300,
        StatusPolicy::ExactlyOk => status == 200,
        StatusPolicy::OkOrUnavailable => status == 200 || status == 503,
    }
}

/// A server response outside the accepted status codes, captured verbatim.
#[derive(Clone, Debug, PartialEq)]
pub struct ApiError {
    /// The status code the server answered with.
    pub status: u16,
    /// The raw, unparsed body text.
    pub text: String,
}

/// The closed set of terminal errors of a call; exactly one of these, or
/// the typed result, comes out of every call.
#[derive(Clone, Debug, PartialEq)]
pub enum RequestError {
    /// The server answered with an unexpected status; the body is kept as
    /// raw text, never parsed here.
    Http { status: u16, text: String },
    /// The network-level attempt failed; the cause is kept as opaque text.
    Transport { text: String },
    /// A request body could not be encoded, or a success-status response
    /// body could not be decoded into the expected type.
    Serialization { text: String },
}

/// Splits a raw response by status: the body to decode on an accepted
/// status, a structured API error otherwise.
pub fn classify(policy: StatusPolicy, raw: RawResponse) -> (r: Result<Vec<u8>, ApiError>)
    ensures
        policy_accepts(policy, raw.status) ==> (r matches Ok(b) && b@ == raw.body@),
        !policy_accepts(policy, raw.status) ==> (r matches Err(e) && e.status == raw.status
            && e.text@ == lossy_utf8(raw.body@)),
{
    let accepted = match policy {
        StatusPolicy::AnySuccess => 200 <= raw.status && raw.status < 300,
        StatusPolicy::ExactlyOk => raw.status == 200,
        StatusPolicy::OkOrUnavailable => raw.status == 200 || raw.status == 503,
    };
    if accepted {
        Ok(raw.body)
    } else {
        let text = body_text(&raw.body);
        Err(ApiError { status: raw.status, text })
    }
}

/// Maps the outcome of decoding a success-status body into the call's
/// final result: a decode failure is a serialization error, distinct from
/// a server-reported error.
pub fn decoded_outcome<T>(decoded: Result<T, String>) -> (r: Result<T, RequestError>)
    ensures
        decoded matches Ok(v) ==> r == Ok::<T, RequestError>(v),
        decoded matches Err(m) ==> (r == Err::<T, RequestError>(
            RequestError::Serialization { text: m },
        )),
{
    match decoded {
        Ok(v) => Ok(v),
        Err(m) => Err(RequestError::Serialization { text: m }),
    }
}

} // verus!
