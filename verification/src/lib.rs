//! Namespace-scoped channels of a device-casting client.
//!
//! A channel owns one namespace of the cast protocol. It builds the envelopes
//! of its requests and classifies the envelopes that arrive on its namespace.
//! The transport that carries the envelopes is not part of this crate: every
//! request builder hands back the envelope to send.

pub mod channels;
pub mod errors;
pub mod json;
pub mod message;
pub mod proxies;
pub mod strings;
