//! The gateway's response envelope, as handed over by the JSON decoder.
//!
//! Each slot is tolerant: a slot that was missing, `null` or of the wrong
//! shape arrives here as `None`.

use vstd::prelude::*;

verus! {

/// The payload of a fetch: the gateway's internal id of the purchase.
pub struct FetchPayload {
    pub id: String,
}

/// The three independent slots of a gateway response.
pub struct ResponseEnvelope {
    pub successful: bool,
    pub response: Option<FetchPayload>,
    pub errors: Option<Vec<String>>,
}

/// Stands for the gateway's message where a failure came with none.
pub open spec fn no_message() -> Seq<char> {
    "no error message"@
}

/// The first error message of `e`, or the placeholder where it has none.
pub open spec fn spec_first_error(e: ResponseEnvelope) -> Seq<char> {
    match e.errors {
        Some(v) => if v@.len() > 0 {
            v@[0]@
        } else {
            no_message()
        },
        None => no_message(),
    }
}

/// The internal id carried by `e`, where it carries a non-empty one.
pub open spec fn spec_transaction_id(e: ResponseEnvelope) -> Option<Seq<char>> {
    match e.response {
        Some(p) => if p.id@.len() > 0 {
            Some(p.id@)
        } else {
            None
        },
        None => None,
    }
}

impl ResponseEnvelope {
    /// The first error message, or the placeholder where there is none.
    pub fn first_error(&self) -> (r: String)
        ensures
            r@ == spec_first_error(*self),
    {
        match &self.errors {
            Some(v) => if v.len() > 0 {
                v[0].clone()
            } else {
                String::from_str("no error message")
            },
            None => String::from_str("no error message"),
        }
    }

    /// The internal id, where the payload holds a non-empty one.
    pub fn transaction_id(&self) -> (r: Option<String>)
        ensures
            match r {
                Some(s) => spec_transaction_id(*self) == Some(s@),
                None => spec_transaction_id(*self) is None,
            },
    {
        match &self.response {
            Some(p) => if p.id.as_str().unicode_len() > 0 {
                Some(p.id.clone())
            } else {
                None
            },
            None => None,
        }
    }
}

} // verus!
