//! Reading the workspace version out of a package manifest.
//!
//! The manifest is TOML; the toml crate does the parsing, behind named
//! lookups, and the choice between the workspace form and the single-package
//! form is verified logic.

use crate::ReleaseError;
use vstd::prelude::*;

verus! {

/// Whether the TOML document's root table holds `key`; absent when the text
/// is not a valid TOML document.
pub uninterp spec fn toml_root_has_key(doc: Seq<char>, key: Seq<char>) -> Option<bool>;

/// Relies on `toml::from_str::<toml::Value>`, `toml::Value::as_table` and
/// `toml::map::Map::contains_key`: whether the root table holds the key
/// depends on the document and the key alone.
#[verifier::external_body]
fn parse_toml_root_has_key(content: &str, key: &str) -> (r: Option<bool>)
    ensures
        r == toml_root_has_key(content@, key@),
{
    let doc = toml::from_str::<toml::Value>(content).ok()?;
    doc.as_table().map(|table| table.contains_key(key))
}

/// The string under `doc[k1][k2]`, when the document parses and every step
/// of that path is a table holding the next key, the last a string.
pub uninterp spec fn toml_string_at2(doc: Seq<char>, k1: Seq<char>, k2: Seq<char>) -> Option<
    Seq<char>,
>;

/// Relies on `toml::from_str::<toml::Value>`, `toml::Value::{as_table,
/// as_str}` and `toml::map::Map::get`: the string at the two-key path
/// depends on the document and the keys alone.
#[verifier::external_body]
fn parse_toml_string_at2(content: &str, k1: &str, k2: &str) -> (r: Option<String>)
    ensures
        r is Some <==> toml_string_at2(content@, k1@, k2@) is Some,
        r matches Some(s) ==> toml_string_at2(content@, k1@, k2@) == Some(s@),
{
    let doc = toml::from_str::<toml::Value>(content).ok()?;
    let inner = doc.as_table()?.get(k1)?.as_table()?.get(k2)?;
    inner.as_str().map(|s| s.to_string())
}

/// The string under `doc[k1][k2][k3]`, when the document parses and every
/// step of that path is a table holding the next key, the last a string.
pub uninterp spec fn toml_string_at3(
    doc: Seq<char>,
    k1: Seq<char>,
    k2: Seq<char>,
    k3: Seq<char>,
) -> Option<Seq<char>>;

/// Relies on `toml::from_str::<toml::Value>`, `toml::Value::{as_table,
/// as_str}` and `toml::map::Map::get`: the string at the three-key path
/// depends on the document and the keys alone.
#[verifier::external_body]
fn parse_toml_string_at3(content: &str, k1: &str, k2: &str, k3: &str) -> (r: Option<String>)
    ensures
        r is Some <==> toml_string_at3(content@, k1@, k2@, k3@) is Some,
        r matches Some(s) ==> toml_string_at3(content@, k1@, k2@, k3@) == Some(s@),
{
    let doc = toml::from_str::<toml::Value>(content).ok()?;
    let inner = doc.as_table()?.get(k1)?.as_table()?.get(k2)?.as_table()?.get(k3)?;
    inner.as_str().map(|s| s.to_string())
}

/// Where a manifest's version stands: under `workspace.package.version` when
/// the root table holds a `workspace` key, else under `package.version`.
/// Absent whenever the document or the path to the version is malformed.
pub open spec fn spec_manifest_version(doc: Seq<char>) -> Option<Seq<char>> {
    match toml_root_has_key(doc, "workspace"@) {
        Option::None => Option::None,
        Option::Some(true) => toml_string_at3(doc, "workspace"@, "package"@, "version"@),
        Option::Some(false) => toml_string_at2(doc, "package"@, "version"@),
    }
}

/// Read the current version out of the given manifest content: from the
/// workspace's package table when the manifest declares a workspace, else
/// from the package table. Any malformed shape is a parse failure.
pub fn get_current_version_from_cargo_toml(content: &str) -> (r: Result<String, ReleaseError>)
    ensures
        r is Ok <==> spec_manifest_version(content@) is Some,
        r matches Ok(s) ==> spec_manifest_version(content@) == Some(s@),
        r matches Err(e) ==> e == ReleaseError::Parse,
{
    match parse_toml_root_has_key(content, "workspace") {
        None => Err(ReleaseError::Parse),
        Some(true) => match parse_toml_string_at3(content, "workspace", "package", "version") {
            Some(version) => Ok(version),
            None => Err(ReleaseError::Parse),
        },
        Some(false) => match parse_toml_string_at2(content, "package", "version") {
            Some(version) => Ok(version),
            None => Err(ReleaseError::Parse),
        },
    }
}

} // verus!
