use vstd::prelude::*;

verus! {

/// `serde_json::Value` is carried through the library as an opaque payload.
#[verifier::external_type_specification]
#[verifier::external_body]
pub struct ExValue(serde_json::Value);

/// `serde_json::Error`, the error of a failed serialisation.
#[verifier::external_type_specification]
#[verifier::external_body]
pub struct ExJsonError(serde_json::Error);

/// Relies on the derived `Clone` of `serde_json::Value`: a copy equal to the original.
pub assume_specification[ <serde_json::Value as Clone>::clone ](v: &serde_json::Value) -> (r: serde_json::Value)
    ensures
        r == *v,
;

/// The JSON text that `serde_json::to_string` gives for a value.
pub uninterp spec fn json_text_of(v: serde_json::Value) -> Seq<char>;

/// Relies on `serde_json::to_string`: the JSON text of `v`. Serialising a
/// `Value` into a byte vector does not fail: object keys are strings,
/// non-finite floats are written as `null`, and the vector writer never
/// errs.
#[verifier::external_body]
pub(crate) fn to_json_text(v: &serde_json::Value) -> (r: Result<String, serde_json::Error>)
    ensures
        r.is_ok(),
        r matches Ok(s) ==> s@ == json_text_of(*v),
{
    serde_json::to_string(v)
}

} // verus!
