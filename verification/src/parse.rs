//! Parsing manifest text into a [`Doc`], through the outside parsers.
//!
//! The two parsers are deterministic: what they produce is a function of the
//! input text alone, so each is named by an uninterpreted spec function
//! ([`json_doc`], [`toml_doc`]) that the trusted wrappers' contracts apply.
//! Everything downstream of parsing is verified against those names.

use vstd::prelude::*;

use crate::Ecosystem;
use crate::doc::Doc;

verus! {

#[verifier::external_type_specification]
#[verifier::external_body]
pub struct ExJsonValue(serde_json::Value);

#[verifier::external_type_specification]
#[verifier::external_body]
pub struct ExTomlValue(toml::Value);

/// The document a JSON text parses to, or `None` where the text is not valid
/// JSON; a name for what `serde_json::from_str` returns.
pub uninterp spec fn json_doc(text: Seq<char>) -> Option<Doc>;

/// The document a TOML text parses to, or `None` where the text is not valid
/// TOML; a name for what `toml::from_str` returns.
pub uninterp spec fn toml_doc(text: Seq<char>) -> Option<Doc>;

/// Relies on the variants of `serde_json::Value`: each is turned into the
/// matching [`Doc`] node, one arm per variant, objects entry by entry.
#[verifier::external_body]
fn doc_of_json(v: serde_json::Value) -> Doc {
    match v {
        serde_json::Value::Bool(b) => Doc::Bool(b),
        serde_json::Value::String(s) => Doc::Text(s),
        serde_json::Value::Object(entries) => Doc::Table(
            entries.into_iter().map(|(key, inner)| (key, doc_of_json(inner))).collect(),
        ),
        _ => Doc::Other,
    }
}

/// Relies on the variants of `toml::Value`: each is turned into the matching
/// [`Doc`] node, one arm per variant, tables entry by entry.
#[verifier::external_body]
fn doc_of_toml(v: toml::Value) -> Doc {
    match v {
        toml::Value::Boolean(b) => Doc::Bool(b),
        toml::Value::String(s) => Doc::Text(s),
        toml::Value::Table(entries) => Doc::Table(
            entries.into_iter().map(|(key, inner)| (key, doc_of_toml(inner))).collect(),
        ),
        _ => Doc::Other,
    }
}

/// Relies on `serde_json::from_str`: `Ok` exactly on valid JSON text, and the
/// parsed value is a function of the text alone.
#[verifier::external_body]
fn parse_json(text: &str) -> (r: Option<Doc>)
    ensures
        r == json_doc(text@),
{
    match serde_json::from_str::<serde_json::Value>(text) {
        Ok(v) => Some(doc_of_json(v)),
        Err(_) => None,
    }
}

/// Relies on `toml::from_str`: `Ok` exactly on valid TOML text, and the
/// parsed value is a function of the text alone.
#[verifier::external_body]
fn parse_toml(text: &str) -> (r: Option<Doc>)
    ensures
        r == toml_doc(text@),
{
    match toml::from_str::<toml::Value>(text) {
        Ok(v) => Some(doc_of_toml(v)),
        Err(_) => None,
    }
}

/// The document `text` parses to under `eco`'s format: JSON for npm,
/// TOML for Cargo and PEP 621/poetry.
pub open spec fn spec_manifest_doc(text: Seq<char>, eco: Ecosystem) -> Option<Doc> {
    match eco {
        Ecosystem::Npm => json_doc(text),
        _ => toml_doc(text),
    }
}

/// Parse manifest text in the format of its ecosystem: `None` exactly where
/// the text is malformed for that format.
pub fn parse_manifest(text: &str, eco: Ecosystem) -> (r: Option<Doc>)
    ensures
        r == spec_manifest_doc(text@, eco),
{
    match eco {
        Ecosystem::Npm => parse_json(text),
        _ => parse_toml(text),
    }
}

} // verus!
