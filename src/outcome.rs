//! How the voiding of one reference ended, and the line that reports it.

use vstd::prelude::*;

verus! {

/// The terminal outcome for one reference. Each carries the reference the
/// caller supplied.
pub enum VoidOutcome {
    Voided { reference: String },
    FetchFailed { reference: String, message: String },
    VoidRejected { reference: String, message: String },
    TransportError { reference: String, message: String },
    DecodeError { reference: String, message: String },
}

/// The mathematical form of a `VoidOutcome`.
pub enum Outcome {
    Voided(Seq<char>),
    FetchFailed(Seq<char>, Seq<char>),
    VoidRejected(Seq<char>, Seq<char>),
    TransportError(Seq<char>, Seq<char>),
    DecodeError(Seq<char>, Seq<char>),
}

impl View for VoidOutcome {
    type V = Outcome;

    open spec fn view(&self) -> Outcome {
        match self {
            VoidOutcome::Voided { reference } => Outcome::Voided(reference@),
            VoidOutcome::FetchFailed { reference, message } => Outcome::FetchFailed(
                reference@,
                message@,
            ),
            VoidOutcome::VoidRejected { reference, message } => Outcome::VoidRejected(
                reference@,
                message@,
            ),
            VoidOutcome::TransportError { reference, message } => Outcome::TransportError(
                reference@,
                message@,
            ),
            VoidOutcome::DecodeError { reference, message } => Outcome::DecodeError(
                reference@,
                message@,
            ),
        }
    }
}

impl Outcome {
    pub open spec fn reference(self) -> Seq<char> {
        match self {
            Outcome::Voided(r) => r,
            Outcome::FetchFailed(r, _) => r,
            Outcome::VoidRejected(r, _) => r,
            Outcome::TransportError(r, _) => r,
            Outcome::DecodeError(r, _) => r,
        }
    }
}

/// What std's `Debug` writes for a string: its characters between double
/// quotes, with quotes, backslashes and control characters escaped.
pub uninterp spec fn debug_quoted(s: Seq<char>) -> Seq<char>;

/// The console line that reports an outcome.
pub open spec fn spec_line(o: Outcome) -> Seq<char> {
    match o {
        Outcome::Voided(r) => r + " - Voided"@,
        Outcome::FetchFailed(r, m) => r + " - Voiding failed - "@ + debug_quoted(m),
        Outcome::VoidRejected(r, m) => r + " - Voiding failed - "@ + debug_quoted(m),
        Outcome::TransportError(r, m) => r + " - TransportError: "@ + m,
        Outcome::DecodeError(r, m) => r + " - DecodeError: "@ + m,
    }
}

/// Relies on `<str as Debug>::fmt`, through `format!("{:?}")`: the quoted
/// form depends on the characters of `message` alone.
#[verifier::external_body]
fn quote(message: &str) -> (r: String)
    ensures
        r@ == debug_quoted(message@),
{
    format!("{:?}", message)
}

impl VoidOutcome {
    /// The reference the outcome is about.
    pub fn reference(&self) -> (r: &String)
        ensures
            r@ == self@.reference(),
    {
        match self {
            VoidOutcome::Voided { reference } => reference,
            VoidOutcome::FetchFailed { reference, .. } => reference,
            VoidOutcome::VoidRejected { reference, .. } => reference,
            VoidOutcome::TransportError { reference, .. } => reference,
            VoidOutcome::DecodeError { reference, .. } => reference,
        }
    }

    /// The console line that reports this outcome.
    pub fn line(&self) -> (r: String)
        ensures
            r@ == spec_line(self@),
    {
        match self {
            VoidOutcome::Voided { reference } => reference.clone().concat(" - Voided"),
            VoidOutcome::FetchFailed { reference, message } => {
                let q = quote(message.as_str());
                reference.clone().concat(" - Voiding failed - ").concat(q.as_str())
            },
            VoidOutcome::VoidRejected { reference, message } => {
                let q = quote(message.as_str());
                reference.clone().concat(" - Voiding failed - ").concat(q.as_str())
            },
            VoidOutcome::TransportError { reference, message } => {
                reference.clone().concat(" - TransportError: ").concat(message.as_str())
            },
            VoidOutcome::DecodeError { reference, message } => {
                reference.clone().concat(" - DecodeError: ").concat(message.as_str())
            },
        }
    }
}

} // verus!
