//! The serde_json items that the transport relies on. A JSON value stays
//! opaque here: the library carries it, frames its text and asks serde_json
//! for the one member that the response envelope defines.
use vstd::prelude::*;

verus! {

#[verifier::external_type_specification]
#[verifier::external_body]
pub struct ExValue(serde_json::Value);

/// What `serde_json::from_str::<Value>` makes of a text: `None` where the
/// text is not one JSON document.
pub uninterp spec fn parse_json(text: Seq<char>) -> Option<serde_json::Value>;

/// What `Value::get` returns for a member name: the member of that name
/// where the value is an object that has one.
pub uninterp spec fn json_member(v: serde_json::Value, key: Seq<char>) -> Option<serde_json::Value>;

/// The compact JSON text that `Value`'s `Display` writes.
pub uninterp spec fn json_text(v: serde_json::Value) -> Seq<char>;

/// Relies on serde_json::from_str::<Value>, which fails at the end of the
/// input where no value has begun, so an empty text parses to nothing.
#[verifier::external_body]
pub(crate) fn parse(text: &str) -> (r: Option<serde_json::Value>)
    ensures
        r == parse_json(text@),
        text@.len() == 0 ==> r is None,
{
    serde_json::from_str::<serde_json::Value>(text).ok()
}

/// Relies on serde_json::Value::get with a `&str` index, and on `Clone` for
/// the member it finds.
#[verifier::external_body]
pub(crate) fn member(v: &serde_json::Value, key: &str) -> (r: Option<serde_json::Value>)
    ensures
        r == json_member(*v, key@),
{
    v.get(key).cloned()
}

/// Relies on `Display for serde_json::Value`, which writes compact JSON and
/// cannot fail.
#[verifier::external_body]
pub(crate) fn to_text(v: &serde_json::Value) -> (r: String)
    ensures
        r@ == json_text(*v),
{
    v.to_string()
}

/// Relies on serde_json::Value::Null being what the text `null` parses to.
#[verifier::external_body]
pub(crate) fn null_value() -> (r: serde_json::Value)
    ensures
        parse_json("null"@) == Some(r),
{
    serde_json::Value::Null
}

} // verus!
