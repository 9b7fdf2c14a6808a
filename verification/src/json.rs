//! Trusted views of the JSON documents that the external tools emit.
//!
//! serde_json does all parsing. Each extraction is named as a function of the
//! raw bytes and the keys, so that the logic built on top can be verified
//! against those names; nothing of JSON grammar itself is restated here.

use vstd::prelude::*;

verus! {

/// The number of elements of the JSON array the bytes parse as, if they do
/// parse as an array.
pub uninterp spec fn json_array_len(bytes: Seq<u8>) -> Option<int>;

/// Relies on `serde_json::from_slice::<Vec<serde_json::Value>>`: whether the
/// bytes parse as a JSON array, and how many elements it has, depend on the
/// bytes alone.
#[verifier::external_body]
pub(crate) fn parse_json_array_len(bytes: &[u8]) -> (r: Option<usize>)
    ensures
        r is Some <==> json_array_len(bytes@) is Some,
        r matches Some(n) ==> json_array_len(bytes@) == Some(n as int),
{
    serde_json::from_slice::<Vec<serde_json::Value>>(bytes).ok().map(|list| list.len())
}

/// The string under `key` in the first element of the JSON array, when the
/// bytes parse as a non-empty array whose first element is an object holding
/// a string at that key.
pub uninterp spec fn json_first_string_field(bytes: Seq<u8>, key: Seq<char>) -> Option<Seq<char>>;

/// Relies on `serde_json::from_slice::<Vec<serde_json::Value>>` and
/// `serde_json::Value::{as_object, as_str}` with `serde_json::Map::get`: the
/// extracted field depends on the bytes and the key alone.
#[verifier::external_body]
pub(crate) fn parse_json_first_string_field(bytes: &[u8], key: &str) -> (r: Option<String>)
    ensures
        r is Some <==> json_first_string_field(bytes@, key@) is Some,
        r matches Some(s) ==> json_first_string_field(bytes@, key@) == Some(s@),
{
    let list = serde_json::from_slice::<Vec<serde_json::Value>>(bytes).ok()?;
    let field = list.first()?.as_object()?.get(key)?;
    field.as_str().map(|s| s.to_string())
}

/// The unsigned integer under `key` in the first element of the JSON array,
/// when the bytes parse as a non-empty array whose first element is an object
/// holding a `u64`-sized number at that key.
pub uninterp spec fn json_first_u64_field(bytes: Seq<u8>, key: Seq<char>) -> Option<u64>;

/// Relies on `serde_json::from_slice::<Vec<serde_json::Value>>` and
/// `serde_json::Value::{as_object, as_u64}` with `serde_json::Map::get`: the
/// extracted number depends on the bytes and the key alone.
#[verifier::external_body]
pub(crate) fn parse_json_first_u64_field(bytes: &[u8], key: &str) -> (r: Option<u64>)
    ensures
        r == json_first_u64_field(bytes@, key@),
{
    let list = serde_json::from_slice::<Vec<serde_json::Value>>(bytes).ok()?;
    list.first()?.as_object()?.get(key)?.as_u64()
}

/// The length of the array under `key` in the first element of the JSON
/// array, when that field exists and is an array.
pub uninterp spec fn json_first_array_field_len(bytes: Seq<u8>, key: Seq<char>) -> Option<int>;

/// Relies on `serde_json::from_slice::<Vec<serde_json::Value>>` and
/// `serde_json::Value::{as_object, as_array}` with `serde_json::Map::get`:
/// the nested array's length depends on the bytes and the key alone.
#[verifier::external_body]
pub(crate) fn parse_json_first_array_field_len(bytes: &[u8], key: &str) -> (r: Option<usize>)
    ensures
        r is Some <==> json_first_array_field_len(bytes@, key@) is Some,
        r matches Some(n) ==> json_first_array_field_len(bytes@, key@) == Some(n as int),
{
    let list = serde_json::from_slice::<Vec<serde_json::Value>>(bytes).ok()?;
    list.first()?.as_object()?.get(key)?.as_array().map(|arr| arr.len())
}

/// The string under `subkey` in element `idx` of the array under `key` in
/// the first element of the JSON array, when that whole path exists with
/// those shapes.
pub uninterp spec fn json_first_array_string_at(
    bytes: Seq<u8>,
    key: Seq<char>,
    idx: int,
    subkey: Seq<char>,
) -> Option<Seq<char>>;

/// Relies on `serde_json::from_slice::<Vec<serde_json::Value>>`,
/// `serde_json::Value::{as_object, as_array, as_str}` and
/// `serde_json::Map::get`: the extracted string depends on the bytes, the
/// keys and the index alone.
#[verifier::external_body]
pub(crate) fn parse_json_first_array_string_at(bytes: &[u8], key: &str, idx: usize, subkey: &str) -> (r:
    Option<String>)
    ensures
        r is Some <==> json_first_array_string_at(bytes@, key@, idx as int, subkey@) is Some,
        r matches Some(s) ==> json_first_array_string_at(bytes@, key@, idx as int, subkey@)
            == Some(s@),
{
    let list = serde_json::from_slice::<Vec<serde_json::Value>>(bytes).ok()?;
    let arr = list.first()?.as_object()?.get(key)?.as_array()?;
    arr.get(idx)?.as_object()?.get(subkey)?.as_str().map(|s| s.to_string())
}

} // verus!
