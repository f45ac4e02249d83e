//! The boundary to the pluggable value representation.
//!
//! An argument or stream item enters this layer as a `serde_json::Value`,
//! which is opaque here; its only use is to be converted once into its
//! canonical wire text.

use vstd::prelude::*;

verus! {

#[verifier::external_type_specification]
#[verifier::external_body]
pub struct ExValue(serde_json::Value);

/// Relies on `serde_json::to_string` on a `serde_json::Value`: yields the
/// value's JSON text.  Serializing a `Value` cannot fail: object keys are
/// strings, a `Number` holds no non-finite float, and the writer is an
/// in-memory vector, so every error path of the serializer is
/// unreachable and the `unwrap` never fires.
#[verifier::external_body]
pub(crate) fn value_to_json(v: &serde_json::Value) -> String {
    serde_json::to_string(v).unwrap()
}

} // verus!
