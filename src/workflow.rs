//! The two-step protocol for one reference: fetch the purchase to learn its
//! internal id, then void that id.
//!
//! The caller performs each request that the session asks for and hands the
//! reply back; the session decides what comes next.

use vstd::prelude::*;
use crate::auth::{authorization_header, base64_of};
use crate::endpoint::{fetch_url, void_url, spec_fetch_base, spec_void_base};
use crate::envelope::{ResponseEnvelope, spec_first_error, spec_transaction_id};
use crate::outcome::{Outcome, VoidOutcome};
use crate::params::Params;

verus! {

/// Seconds that one request, connection and body read included, may take.
pub const REQUEST_TIMEOUT_SECS: u64 = 10;

/// What came back from one request.
pub enum Reply {
    /// No response was read: DNS, TCP, TLS or timeout failure.
    Transport { message: String },
    /// A body was read but is not a JSON envelope.
    Undecodable,
    /// The decoded envelope, whatever the HTTP status.
    Decoded { envelope: ResponseEnvelope },
}

pub enum Method {
    Get,
    Post,
}

/// The media type of both request and response bodies.
pub open spec fn json_media_type() -> Seq<char> {
    "application/json"@
}

/// One HTTP request, sent with an empty body and without retry.
pub struct Request {
    pub method: Method,
    pub url: String,
    /// The `Authorization` header.
    pub authorization: String,
    /// The `Accept` header.
    pub accept: String,
    /// The `Content-Type` header.
    pub content_type: String,
    /// Seconds the whole exchange may take.
    pub timeout_secs: u64,
}

/// The message when the reply to a fetch is not a JSON envelope.
pub open spec fn undecodable_fetch_message(reference: Seq<char>) -> Seq<char> {
    "00Error voiding transaction: "@ + reference
}

/// The message when the reply to a void is not a JSON envelope.
pub open spec fn undecodable_void_message(reference: Seq<char>) -> Seq<char> {
    "02Error voiding transaction: "@ + reference
}

fn undecodable_fetch(reference: &String) -> (r: String)
    ensures
        r@ == undecodable_fetch_message(reference@),
{
    String::from_str("00Error voiding transaction: ").concat(reference.as_str())
}

fn undecodable_void(reference: &String) -> (r: String)
    ensures
        r@ == undecodable_void_message(reference@),
{
    String::from_str("02Error voiding transaction: ").concat(reference.as_str())
}


/// What follows a fetch: a void of the id it found, or the end.
pub enum FetchStep {
    Void(Seq<char>),
    Finish(Outcome),
}

/// The decision on the reply to the fetch of `reference`.
pub open spec fn spec_after_fetch(reference: Seq<char>, reply: Reply) -> FetchStep {
    match reply {
        Reply::Transport { message } => FetchStep::Finish(
            Outcome::TransportError(reference, message@),
        ),
        Reply::Undecodable => FetchStep::Finish(
            Outcome::DecodeError(reference, undecodable_fetch_message(reference)),
        ),
        Reply::Decoded { envelope } => if !envelope.successful {
            FetchStep::Finish(Outcome::FetchFailed(reference, spec_first_error(envelope)))
        } else {
            match spec_transaction_id(envelope) {
                Some(id) => FetchStep::Void(id),
                None => FetchStep::Finish(Outcome::DecodeError(reference, missing_id()@)),
            }
        },
    }
}

/// The message of a successful fetch that names no purchase.
pub open spec fn missing_id() -> &'static str {
    "response holds no transaction id"
}

/// The outcome on the reply to the void of `reference`'s purchase.
pub open spec fn spec_after_void(reference: Seq<char>, reply: Reply) -> Outcome {
    match reply {
        Reply::Transport { message } => Outcome::TransportError(reference, message@),
        Reply::Undecodable => Outcome::DecodeError(reference, undecodable_void_message(reference)),
        Reply::Decoded { envelope } => if envelope.successful {
            Outcome::Voided(reference)
        } else {
            Outcome::VoidRejected(reference, spec_first_error(envelope))
        },
    }
}

/// Decides on the reply to the fetch of `reference`: `Ok` with the internal
/// id to void, or `Err` with the final outcome.
pub fn after_fetch(reference: &String, reply: Reply) -> (r: Result<String, VoidOutcome>)
    ensures
        match (r, spec_after_fetch(reference@, reply)) {
            (Ok(id), FetchStep::Void(sid)) => id@ == sid,
            (Err(o), FetchStep::Finish(so)) => o@ == so,
            _ => false,
        },
{
    match reply {
        Reply::Transport { message } => Err(
            VoidOutcome::TransportError { reference: reference.clone(), message },
        ),
        Reply::Undecodable => Err(
            VoidOutcome::DecodeError { reference: reference.clone(), message: undecodable_fetch(reference) },
        ),
        Reply::Decoded { envelope } => {
            if !envelope.successful {
                Err(
                    VoidOutcome::FetchFailed {
                        reference: reference.clone(),
                        message: envelope.first_error(),
                    },
                )
            } else {
                match envelope.transaction_id() {
                    Some(id) => Ok(id),
                    None => Err(
                        VoidOutcome::DecodeError {
                            reference: reference.clone(),
                            message: String::from_str("response holds no transaction id"),
                        },
                    ),
                }
            }
        },
    }
}

/// The outcome on the reply to the void of `reference`'s purchase.
pub fn after_void(reference: &String, reply: Reply) -> (r: VoidOutcome)
    ensures
        r@ == spec_after_void(reference@, reply),
{
    match reply {
        Reply::Transport { message } => VoidOutcome::TransportError {
            reference: reference.clone(),
            message,
        },
        Reply::Undecodable => VoidOutcome::DecodeError {
            reference: reference.clone(),
            message: undecodable_void(reference),
        },
        Reply::Decoded { envelope } => {
            if envelope.successful {
                VoidOutcome::Voided { reference: reference.clone() }
            } else {
                VoidOutcome::VoidRejected {
                    reference: reference.clone(),
                    message: envelope.first_error(),
                }
            }
        },
    }
}

/// Where a session stands.
pub enum Stage {
    /// The fetch of the reference is due.
    Fetching,
    /// The fetch found the purchase; its void is due.
    Voiding { id: String },
    /// Nothing more is sent.
    Finished { outcome: VoidOutcome },
}

/// The voiding of one reference.
pub struct VoidSession {
    /// The merchant id, which selects the gateway.
    pub merchant_id: String,
    /// The reference, as the caller supplied it.
    pub reference: String,
    /// The `Authorization` header value.
    pub authorization: String,
    pub stage: Stage,
    /// The replies received so far, one per request sent.
    pub requests: usize,
}

impl VoidSession {
    pub open spec fn wf(&self) -> bool {
        match self.stage {
            Stage::Fetching => self.requests == 0,
            Stage::Voiding { .. } => self.requests == 1,
            Stage::Finished { outcome } => 1 <= self.requests <= 2 && outcome@.reference()
                == self.reference@,
        }
    }

    pub open spec fn is_finished(&self) -> bool {
        self.stage is Finished
    }

    /// Replies still to come, at most.
    pub open spec fn pending(&self) -> nat {
        match self.stage {
            Stage::Fetching => 2,
            Stage::Voiding { .. } => 1,
            Stage::Finished { .. } => 0,
        }
    }

    /// `q` is the request that is due: `GET` of the purchase while fetching,
    /// `POST` of the void of the found id while voiding.
    pub open spec fn is_due(&self, q: Request) -> bool {
        &&& q.authorization@ == self.authorization@
        &&& q.accept@ == json_media_type()
        &&& q.content_type@ == json_media_type()
        &&& q.timeout_secs == REQUEST_TIMEOUT_SECS
        &&& match self.stage {
            Stage::Fetching => q.method is Get && q.url@ == spec_fetch_base(self.merchant_id@)
                + self.reference@,
            Stage::Voiding { id } => q.method is Post && q.url@ == spec_void_base(
                self.merchant_id@,
            ) + id@,
            Stage::Finished { .. } => false,
        }
    }

    /// A session for `reference`, with the merchant username of `params` as
    /// the merchant id.
    pub fn new(params: &Params, reference: &String) -> (r: Self)
        ensures
            r.wf(),
            r.stage is Fetching,
            r.merchant_id@ == params.username@,
            r.reference@ == reference@,
            r.authorization@ == "Basic "@ + base64_of(params.username@ + ":"@ + params.token@),
    {
        VoidSession {
            merchant_id: params.username.clone(),
            reference: reference.clone(),
            authorization: authorization_header(&params.username, &params.token),
            stage: Stage::Fetching,
            requests: 0,
        }
    }

    /// The request that is due: `GET` of the purchase while fetching, `POST`
    /// of the void while voiding, none when finished.
    pub fn request(&self) -> (r: Option<Request>)
        ensures
            match r {
                Some(q) => self.is_due(q),
                None => self.is_finished(),
            },
    {
        match &self.stage {
            Stage::Fetching => Some(
                Request {
                    method: Method::Get,
                    url: fetch_url(&self.merchant_id, &self.reference),
                    authorization: self.authorization.clone(),
                    accept: String::from_str("application/json"),
                    content_type: String::from_str("application/json"),
                    timeout_secs: REQUEST_TIMEOUT_SECS,
                },
            ),
            Stage::Voiding { id } => Some(
                Request {
                    method: Method::Post,
                    url: void_url(&self.merchant_id, id),
                    authorization: self.authorization.clone(),
                    accept: String::from_str("application/json"),
                    content_type: String::from_str("application/json"),
                    timeout_secs: REQUEST_TIMEOUT_SECS,
                },
            ),
            Stage::Finished { .. } => None,
        }
    }

    /// Takes the reply to the request that was due and moves on.
    pub fn receive(&mut self, reply: Reply)
        requires
            old(self).wf(),
            !old(self).is_finished(),
        ensures
            final(self).wf(),
            final(self).requests == old(self).requests + 1,
            final(self).pending() < old(self).pending(),
            final(self).merchant_id == old(self).merchant_id,
            final(self).reference == old(self).reference,
            final(self).authorization == old(self).authorization,
            old(self).stage is Fetching ==> match spec_after_fetch(old(self).reference@, reply) {
                FetchStep::Void(id) => (final(self).stage matches Stage::Voiding { id: i } && i@
                    == id),
                FetchStep::Finish(o) => (final(self).stage matches Stage::Finished { outcome }
                    && outcome@ == o),
            },
            old(self).stage is Voiding ==> (final(self).stage matches Stage::Finished { outcome }
                && outcome@ == spec_after_void(old(self).reference@, reply)),
    {
        let next = match &self.stage {
            Stage::Fetching => match after_fetch(&self.reference, reply) {
                Ok(id) => Stage::Voiding { id },
                Err(outcome) => Stage::Finished { outcome },
            },
            Stage::Voiding { .. } => Stage::Finished { outcome: after_void(&self.reference, reply) },
            // excluded by the precondition
            Stage::Finished { .. } => Stage::Fetching,
        };
        self.stage = next;
        self.requests = self.requests + 1;
    }

    pub fn finished(&self) -> (r: bool)
        ensures
            r == self.is_finished(),
    {
        match &self.stage {
            Stage::Finished { .. } => true,
            _ => false,
        }
    }

    /// The outcome of a finished session, taken out of it.
    pub fn into_outcome(self) -> (r: VoidOutcome)
        requires
            self.is_finished(),
        ensures
            self.stage == (Stage::Finished { outcome: r }),
    {
        match self.stage {
            Stage::Finished { outcome } => outcome,
            // the two arms below are excluded by the precondition
            Stage::Fetching => VoidOutcome::Voided { reference: self.reference },
            Stage::Voiding { .. } => VoidOutcome::Voided { reference: self.reference },
        }
    }

    /// The outcome, once finished.
    pub fn outcome(&self) -> (r: Option<&VoidOutcome>)
        ensures
            match self.stage {
                Stage::Finished { outcome } => r == Some(&outcome),
                _ => r is None,
            },
    {
        match &self.stage {
            Stage::Finished { outcome } => Some(outcome),
            _ => None,
        }
    }
}

/// A fetch reply that reports success but names no purchase (no payload,
/// or an empty id) ends the session with a decode error; no fetch reply
/// ever ends it as voided.
pub proof fn lemma_fetch_without_id(reference: Seq<char>, envelope: ResponseEnvelope, reply: Reply)
    ensures
        envelope.successful && spec_transaction_id(envelope) is None ==> spec_after_fetch(
            reference,
            Reply::Decoded { envelope },
        ) == FetchStep::Finish(Outcome::DecodeError(reference, missing_id()@)),
        spec_after_fetch(reference, reply) matches FetchStep::Finish(o) ==> !(o is Voided),
{
}

} // verus!
