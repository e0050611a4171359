//! Request context for structured logging.

use vstd::prelude::*;

verus! {

/// Whether a character is a lowercase hexadecimal digit.
pub open spec fn is_lower_hex(c: char) -> bool {
    ('0' <= c && c <= '9') || ('a' <= c && c <= 'f')
}

/// Whether a text is in the hyphenated form of a UUID: 36 characters,
/// hyphens at positions 8, 13, 18 and 23, lowercase hex digits elsewhere.
pub open spec fn is_hyphenated_uuid(s: Seq<char>) -> bool {
    &&& s.len() == 36
    &&& forall|i: int|
        0 <= i < 36 ==> if i == 8 || i == 13 || i == 18 || i == 23 {
            s[i] == '-'
        } else {
            is_lower_hex(#[trigger] s[i])
        }
}

/// Whether a hyphenated UUID is a random (version 4, RFC 4122 variant) one:
/// the version digit at position 14 is `4` and the variant digit at
/// position 19 is one of `8`, `9`, `a`, `b`.
pub open spec fn is_random_uuid(s: Seq<char>) -> bool {
    &&& is_hyphenated_uuid(s)
    &&& s[14] == '4'
    &&& (s[19] == '8' || s[19] == '9' || s[19] == 'a' || s[19] == 'b')
}

/// Wraps `uuid::Uuid::new_v4` followed by its `Display` (`to_string`). The
/// identifier is random; what holds of every outcome is its hyphenated
/// lowercase form, which `format_hyphenated` in uuid's `fmt.rs` writes, with
/// the version and variant bits that `new_v4` sets in `v4.rs`. That two calls
/// give different identifiers is not stated.
#[verifier::external_body]
fn new_request_id() -> (id: String)
    ensures
        is_random_uuid(id@),
{
    uuid::Uuid::new_v4().to_string()
}

/// Context for an HTTP request, used for tracking and logging.
#[derive(Clone, Debug)]
pub struct RequestContext {
    pub request_id: String,
    pub method: String,
    pub path: String,
}

impl RequestContext {
    /// A context with a fresh random request identifier.
    pub fn new(method: String, path: String) -> (r: Self)
        ensures
            r.method@ == method@,
            r.path@ == path@,
            is_random_uuid(r.request_id@),
    {
        RequestContext { request_id: new_request_id(), method, path }
    }
}

} // verus!
