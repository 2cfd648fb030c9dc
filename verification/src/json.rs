//! The JSON value type of `serde_json`, carried through the library as an
//! opaque value (usage statistics, extra information, unknown content parts).

use vstd::prelude::*;

verus! {

/// Declares `serde_json::Value` to Verus; nothing inside it is read.
#[verifier::external_type_specification]
#[verifier::external_body]
pub struct ExJsonValue(serde_json::Value);

} // verus!
