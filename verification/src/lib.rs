//! A client for the HTTP API of a vendor of solar installations, and the
//! collection of metrics from it.
//!
//! The API is asked for the stations of an account, for the devices of each
//! station, and for the key figures and the telemetry of both. Its answers
//! are JSON envelopes, which this crate checks and decodes into the types of
//! [`model`].
//!
//! The crate does not open connections. Every call is a pair of functions in
//! [`api`]: one hands out the request to send, the other takes what came back
//! and decodes it. The walks over stations and devices, in [`metrics`] and in
//! [`api::dump`], are state machines of the same kind: they hand out one
//! request at a time and are handed the reply. A program puts a transport
//! between the two halves.
//!
//! Numbers with a fraction are kept as the decimal numerals that the API
//! sent, see [`model::Quantity`]; the crate does no floating-point
//! arithmetic.
//!
//! All functions are verified with Verus against the contracts that they
//! state. Calls into `serde_json` stand behind the contracts of [`json`],
//! which are trusted; so is the contract of `String::from_utf8` behind
//! [`metrics::read`].

pub mod api;
pub mod json;
pub mod metrics;
pub mod model;
pub mod note;
pub mod state;
pub mod text;

pub use api::api;
pub use api::Error;
