//! The structured values that synthesized modules are built from.
//!
//! Values are `serde_json::Value` trees, opaque to the verifier; the one
//! thing the logic reads of a value is its textual serialization, named by
//! [`json_text_of`].

use vstd::prelude::*;

verus! {

/// Declares `serde_json::Value` so that it can stand in signatures and
/// fields; the verifier treats a value of it as opaque.
#[verifier::external_type_specification]
#[verifier::external_body]
pub struct ExValue(serde_json::Value);

/// The compact textual serialization of a JSON value, as
/// `serde_json::Value`'s `Display` produces it: a function of the value
/// alone (object keys are kept sorted by the underlying map).
pub uninterp spec fn json_text_of(v: serde_json::Value) -> Seq<char>;

/// Relies on `serde_json::Value`'s derived `Clone`: the clone is the same
/// value.
#[verifier::external_body]
pub(crate) fn clone_value(v: &serde_json::Value) -> (r: serde_json::Value)
    ensures
        r == *v,
{
    v.clone()
}

/// Relies on `serde_json::Value`'s `Display` (through `ToString`): the
/// compact serialization, a function of the value alone.
#[verifier::external_body]
pub(crate) fn to_json_text(v: &serde_json::Value) -> (r: String)
    ensures
        r@ == json_text_of(*v),
{
    v.to_string()
}

} // verus!
