//! Declaration of serde_json's dynamic value type, so that the JSON-parsing
//! wrappers may pass it between themselves.  The engine holds no value of it
//! outside those wrappers.

use vstd::prelude::*;

verus! {

/// serde_json's dynamic value, opaque to the engine.
#[verifier::external_type_specification]
#[verifier::external_body]
pub struct ExJsonValue(serde_json::Value);

} // verus!
