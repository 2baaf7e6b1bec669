//! Voiding of authorised purchases on a hosted payment gateway.
//!
//! The library holds the protocol engine: endpoint selection, the
//! `Authorization` credential, the reading of response envelopes, the
//! fetch-then-void state machine and the batch driver. Sending requests and
//! reading files is left to the caller, which hands the library plain values.

pub mod endpoint;
pub mod auth;
pub mod params;
pub mod envelope;
pub mod outcome;
pub mod workflow;
pub mod batch;
