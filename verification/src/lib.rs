//! A request marshalling layer for an end-to-end-encryption engine.
//!
//! The engine emits strongly typed outgoing requests (key uploads, key
//! queries, one-time-key claims, device-to-device messages, cross-signing
//! signature uploads, room messages, key-backup uploads).  This library
//! converts each of them into a uniform external record: a request
//! identifier, a few extracted scalar fields, and a JSON-encoded `body`
//! aggregating the remaining payload, shaped by a fixed per-kind schema.

use vstd::prelude::*;

pub mod body;
pub mod duration;
pub mod json;
pub mod numeral;
pub mod requests;

verus! {

/// The single failure of a conversion: a payload field could not be
/// serialized to JSON, or a timeout's millisecond count did not fit in an
/// unsigned 64-bit integer.
#[derive(Clone, Copy, Debug, PartialEq, Eq, Structural)]
pub struct SerializationError;

} // verus!
