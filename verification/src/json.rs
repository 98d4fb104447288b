//! JSON text at the host boundary.
//!
//! Parsing and printing are done by `serde_json`. The items in this file are
//! the only places where that crate is called; their contracts are taken on
//! trust from its source and are not proved here.

use vstd::prelude::*;

verus! {

/// `serde_json::Value`, carried through as an opaque value.
#[verifier::external_type_specification]
#[verifier::external_body]
pub struct ExValue(serde_json::Value);

/// The numeric members of a JSON value: for a JSON object, each key whose
/// member is a number, mapped to the bit pattern of that number read as a
/// double; for any other value, the empty map.
pub uninterp spec fn number_members(value: serde_json::Value) -> Map<Seq<char>, u64>;

/// What `serde_json::from_slice` makes of a payload: `None` where the bytes
/// are not one well-formed JSON text, otherwise the numeric members of the
/// value that they denote.
pub uninterp spec fn payload_numbers(bytes: Seq<u8>) -> Option<Map<Seq<char>, u64>>;

/// The compact JSON array that `serde_json::to_string` prints for a list of
/// strings.
pub uninterp spec fn name_list_text(names: Seq<Seq<char>>) -> Seq<char>;

/// The compact JSON object that `serde_json::Value` prints for a list of
/// string-valued fields.
pub uninterp spec fn record_text(fields: Seq<(Seq<char>, Seq<char>)>) -> Seq<char>;

/// A list of strings, each taken by its view.
pub open spec fn name_views(names: Seq<String>) -> Seq<Seq<char>> {
    Seq::new(names.len(), |i: int| names[i]@)
}

/// A list of fields, key and value each taken by its view.
pub open spec fn field_views(fields: Seq<(String, String)>) -> Seq<(Seq<char>, Seq<char>)> {
    Seq::new(fields.len(), |i: int| (fields[i].0@, fields[i].1@))
}

/// Calls `serde_json::from_slice::<Value>`. Trusted: the call returns a value
/// exactly when the bytes are one well-formed JSON text, which is what
/// `payload_numbers` records, and the numeric members of that value are those
/// that `payload_numbers` gives for the bytes. A parse error is dropped.
#[verifier::external_body]
pub(crate) fn parse_payload(bytes: &[u8]) -> (parsed: Option<serde_json::Value>)
    ensures
        match parsed {
            Some(value) => payload_numbers(bytes@) == Some(number_members(value)),
            None => payload_numbers(bytes@) is None,
        },
{
    serde_json::from_slice::<serde_json::Value>(bytes).ok()
}

/// Calls `Value::get` with a string key and `Value::as_f64` on what it finds.
/// Trusted: the result is the bit pattern of the number stored under `key`
/// where the value is an object with a numeric member of that name, and
/// `None` otherwise.
#[verifier::external_body]
pub(crate) fn number_member(value: &serde_json::Value, key: &str) -> (bits: Option<u64>)
    ensures
        bits == (if number_members(*value).contains_key(key@) {
            Some(number_members(*value)[key@])
        } else {
            None
        }),
{
    value.get(key).and_then(|member| member.as_f64()).map(|number| number.to_bits())
}

/// Calls `serde_json::to_string` on a list of strings. Trusted: printing a
/// list of strings into memory cannot fail, and the text is a function of the
/// strings alone.
#[verifier::external_body]
pub(crate) fn name_list_json(names: &Vec<String>) -> (text: Option<String>)
    ensures
        text is Some,
        text.unwrap()@ == name_list_text(name_views(names@)),
{
    serde_json::to_string(names).ok()
}

/// Builds a `serde_json::Value::Object` from the fields and prints it with
/// `to_string`. Trusted: the text is a function of the fields alone.
#[verifier::external_body]
pub(crate) fn record_json(fields: &Vec<(String, String)>) -> (text: String)
    ensures
        text@ == record_text(field_views(fields@)),
{
    let members: serde_json::Map<String, serde_json::Value> = fields
        .iter()
        .map(|field| (field.0.clone(), serde_json::Value::from(field.1.clone())))
        .collect();
    serde_json::Value::Object(members).to_string()
}

} // verus!
