//! The boundary to the JSON serializer.
//!
//! A payload field whose shape this layer never inspects is carried as a
//! `serde_json::Value` and serialized through the one wrapper below; all
//! contracts speak of the text of that serialization by name.

use vstd::prelude::*;

verus! {

/// Declares `serde_json::Value`, the opaque JSON value a payload field is
/// carried as.
#[verifier::external_type_specification]
#[verifier::external_body]
pub struct ExJsonValue(serde_json::Value);

/// Declares `serde_json::Error`, the error the serializer returns when a
/// value cannot be represented as JSON.
#[verifier::external_type_specification]
#[verifier::external_body]
pub struct ExJsonError(serde_json::Error);

/// The JSON text that serializing a `serde_json::Value` produces.

pub uninterp spec fn json_text_of(v: serde_json::Value) -> Seq<char>;

/// Relies on `serde_json::to_string`: the JSON text of a `Value` is a
/// function of the value alone (object members are iterated in a fixed,
/// key-sorted order).  On a `Value` the call always succeeds: serializing
/// can fail only on a map whose keys are not strings, and a `Value`'s
/// object keys are strings; the writer behind the returned string is a
/// vector, whose writes cannot error.
#[verifier::external_body]
pub(crate) fn json_value_to_text(v: &serde_json::Value) -> (r: Result<
    String,
    serde_json::Error,
>)
    ensures
        r is Ok,
        r matches Ok(t) ==> t@ == json_text_of(*v),
{
    serde_json::to_string(v)
}

} // verus!
