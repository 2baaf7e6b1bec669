//! The HTTP Basic credential sent with every request.

use vstd::prelude::*;

verus! {

/// Standard-alphabet, padded base64 of the UTF-8 bytes of `s`.
pub uninterp spec fn base64_of(s: Seq<char>) -> Seq<char>;

/// Relies on base64::encode (standard alphabet, with padding, no line
/// breaks): its result depends on the bytes of `s` alone.
#[verifier::external_body]
fn base64_encode(s: &String) -> (r: String)
    ensures
        r@ == base64_of(s@),
{
    base64::encode(s.as_bytes())
}

/// The value of the `Authorization` header: `Basic ` followed by the base64
/// of `username:token`.
pub fn authorization_header(username: &String, token: &String) -> (r: String)
    ensures
        r@ == "Basic "@ + base64_of(username@ + ":"@ + token@),
{
    let credentials = username.clone().concat(":").concat(token.as_str());
    let encoded = base64_encode(&credentials);
    String::from_str("Basic ").concat(encoded.as_str())
}

} // verus!
