//! Extracting a package descriptor from a parsed manifest, and turning it
//! into a tag request.

use vstd::prelude::*;

use crate::Ecosystem;
use crate::doc::Doc;
use crate::doc::doc_as_bool;
use crate::doc::doc_as_text;
use crate::doc::doc_get;
use crate::doc::doc_get2;
use crate::doc::doc_get3;
use crate::doc::doc_get4;
use crate::parse::parse_manifest;
use crate::parse::spec_manifest_doc;
use crate::text::normalize_npm_name;
use crate::text::spec_tag_message;
use crate::text::spec_tag_name;
use crate::text::spec_tag_part;
use crate::text::tag_message_string;
use crate::text::tag_name_string;

verus! {

/// Why one manifest was abandoned. Every variant is scoped to the manifest it
/// came from; none aborts the walk.
#[derive(Clone, Copy, PartialEq, Eq, Structural, Debug)]
pub enum ManifestError {
    /// The text is not well-formed for the manifest's format.
    Parse,
    /// The enabled flag is set but the package name is missing or not a string.
    NameNotFound,
    /// The enabled flag is set but the version is missing or not a string.
    VersionNotFound,
}

/// What one opted-in manifest describes: the package it names.
#[derive(PartialEq, Eq, Debug)]
pub struct PackageDescriptor {
    /// Which packaging convention the manifest followed.
    pub ecosystem: Ecosystem,
    /// The package name, as the manifest spells it; never empty.
    pub name: String,
    /// The package version, as the manifest spells it; never empty.
    pub version: String,
    /// The opt-in flag; always set on an extracted descriptor.
    pub auto_tag_enabled: bool,
}

/// The node under an ecosystem's enabled-flag key path.
pub open spec fn spec_enabled_node(d: Doc, eco: Ecosystem) -> Option<Doc> {
    match eco {
        Ecosystem::Cargo => doc_get4(d, "package"@, "metadata"@, "auto-tag"@, "enabled"@),
        Ecosystem::Npm => doc_get2(d, "autoTag"@, "enabled"@),
        Ecosystem::Pep621Poetry => doc_get3(d, "tool"@, "auto-tag"@, "enabled"@),
    }
}

/// Whether the manifest opts in: its enabled-flag key path holds the boolean
/// `true`. An absent path, a `false`, or a non-boolean all mean "opted out".
pub open spec fn spec_enabled(d: Doc, eco: Ecosystem) -> bool {
    match spec_enabled_node(d, eco) {
        Some(v) => doc_as_bool(v) == Some(true),
        None => false,
    }
}

/// The string under an ecosystem's name key path, if the path leads to a
/// string.
pub open spec fn spec_raw_name(d: Doc, eco: Ecosystem) -> Option<Seq<char>> {
    let node = match eco {
        Ecosystem::Cargo => doc_get2(d, "package"@, "name"@),
        Ecosystem::Npm => doc_get(d, "name"@),
        Ecosystem::Pep621Poetry => doc_get3(d, "tool"@, "poetry"@, "name"@),
    };
    match node {
        Some(v) => doc_as_text(v),
        None => None,
    }
}

/// The string under an ecosystem's version key path, if the path leads to a
/// string.
pub open spec fn spec_version(d: Doc, eco: Ecosystem) -> Option<Seq<char>> {
    let node = match eco {
        Ecosystem::Cargo => doc_get2(d, "package"@, "version"@),
        Ecosystem::Npm => doc_get(d, "version"@),
        Ecosystem::Pep621Poetry => doc_get3(d, "tool"@, "poetry"@, "version"@),
    };
    match node {
        Some(v) => doc_as_text(v),
        None => None,
    }
}

/// Whether the manifest resolves a usable package name: the name key path
/// leads to a non-empty string.
pub open spec fn spec_name_ok(d: Doc, eco: Ecosystem) -> bool {
    match spec_raw_name(d, eco) {
        Some(n) => n.len() > 0,
        None => false,
    }
}

/// Whether the manifest resolves a usable version: the version key path
/// leads to a non-empty string.
pub open spec fn spec_version_ok(d: Doc, eco: Ecosystem) -> bool {
    match spec_version(d, eco) {
        Some(v) => v.len() > 0,
        None => false,
    }
}

/// Read a parsed manifest. `Ok(None)` is the silent opted-out case; an
/// extracted descriptor carries the name and version as the manifest spells
/// them, both non-empty; a missing, non-string or empty name or version
/// fails exactly this manifest.
pub fn extract_descriptor(d: &Doc, eco: Ecosystem) -> (r: Result<
    Option<PackageDescriptor>,
    ManifestError,
>)
    ensures
        !spec_enabled(*d, eco) ==> r == Ok::<Option<PackageDescriptor>, ManifestError>(None),
        spec_enabled(*d, eco) && !spec_name_ok(*d, eco) ==> r == Err::<
            Option<PackageDescriptor>,
            ManifestError,
        >(ManifestError::NameNotFound),
        spec_enabled(*d, eco) && spec_name_ok(*d, eco) && !spec_version_ok(*d, eco) ==> r == Err::<
            Option<PackageDescriptor>,
            ManifestError,
        >(ManifestError::VersionNotFound),
        spec_enabled(*d, eco) && spec_name_ok(*d, eco) && spec_version_ok(*d, eco) ==> (
        spec_raw_name(*d, eco) matches Some(n) ==> (spec_version(*d, eco) matches Some(v) ==> (
        r matches Ok(Some(pd)) && pd.ecosystem == eco && pd.name@ == n && pd.version@ == v
            && pd.auto_tag_enabled))),
        r matches Ok(Some(pd)) ==> pd.name@.len() > 0 && pd.version@.len() > 0,
{
    let enabled_node = match eco {
        Ecosystem::Cargo => d.get4("package", "metadata", "auto-tag", "enabled"),
        Ecosystem::Npm => d.get2("autoTag", "enabled"),
        Ecosystem::Pep621Poetry => d.get3("tool", "auto-tag", "enabled"),
    };
    let enabled = match enabled_node {
        Some(v) => match v.as_bool() {
            Some(b) => b,
            None => false,
        },
        None => false,
    };
    if !enabled {
        return Ok(None);
    }
    let name_node = match eco {
        Ecosystem::Cargo => d.get2("package", "name"),
        Ecosystem::Npm => d.get("name"),
        Ecosystem::Pep621Poetry => d.get3("tool", "poetry", "name"),
    };
    let raw_name = match name_node {
        Some(v) => match v.as_text() {
            Some(s) => s,
            None => {
                return Err(ManifestError::NameNotFound);
            },
        },
        None => {
            return Err(ManifestError::NameNotFound);
        },
    };
    if raw_name.is_empty() {
        return Err(ManifestError::NameNotFound);
    }
    let version_node = match eco {
        Ecosystem::Cargo => d.get2("package", "version"),
        Ecosystem::Npm => d.get("version"),
        Ecosystem::Pep621Poetry => d.get3("tool", "poetry", "version"),
    };
    let version = match version_node {
        Some(v) => match v.as_text() {
            Some(s) => s,
            None => {
                return Err(ManifestError::VersionNotFound);
            },
        },
        None => {
            return Err(ManifestError::VersionNotFound);
        },
    };
    if version.is_empty() {
        return Err(ManifestError::VersionNotFound);
    }
    Ok(
        Some(
            PackageDescriptor {
                ecosystem: eco,
                name: raw_name.to_owned(),
                version: version.to_owned(),
                auto_tag_enabled: true,
            },
        ),
    )
}

/// The tag to create for one package: its name and its annotation message.
#[derive(PartialEq, Eq, Debug)]
pub struct TagRequest {
    /// `release-{name}-{version}`.
    pub tag_name: String,
    /// `automatic release tag of {name} ({version})`.
    pub message: String,
}

/// Derive the tag request of a descriptor: the tag name
/// `release-{name}-{version}`, with the name normalized for the npm
/// ecosystem only, and the message
/// `automatic release tag of {name} ({version})`, always with the name as
/// the manifest spells it.
pub fn tag_request_for(pd: &PackageDescriptor) -> (r: TagRequest)
    ensures
        r.tag_name@ == spec_tag_name(spec_tag_part(pd.ecosystem, pd.name@), pd.version@),
        r.message@ == spec_tag_message(pd.name@, pd.version@),
{
    let tag_part = match pd.ecosystem {
        Ecosystem::Npm => normalize_npm_name(pd.name.as_str()),
        _ => pd.name.as_str().to_owned(),
    };
    TagRequest {
        tag_name: tag_name_string(tag_part.as_str(), pd.version.as_str()),
        message: tag_message_string(pd.name.as_str(), pd.version.as_str()),
    }
}

/// Process one manifest's text from parse to tag request. `Ok(None)` is the
/// silent opted-out case; every error is scoped to this manifest.
pub fn process_manifest(text: &str, eco: Ecosystem) -> (r: Result<Option<TagRequest>, ManifestError>)
    ensures
        spec_manifest_doc(text@, eco) is None ==> r == Err::<Option<TagRequest>, ManifestError>(
            ManifestError::Parse,
        ),
        spec_manifest_doc(text@, eco) matches Some(d) ==> {
            &&& !spec_enabled(d, eco) ==> r == Ok::<Option<TagRequest>, ManifestError>(None)
            &&& spec_enabled(d, eco) && !spec_name_ok(d, eco) ==> r == Err::<
                Option<TagRequest>,
                ManifestError,
            >(ManifestError::NameNotFound)
            &&& spec_enabled(d, eco) && spec_name_ok(d, eco) && !spec_version_ok(d, eco) ==> r
                == Err::<Option<TagRequest>, ManifestError>(ManifestError::VersionNotFound)
            &&& spec_enabled(d, eco) && spec_name_ok(d, eco) && spec_version_ok(d, eco) ==> (
            spec_raw_name(d, eco) matches Some(n) ==> (spec_version(d, eco) matches Some(v) ==> (
            r matches Ok(Some(req)) && req.tag_name@ == spec_tag_name(spec_tag_part(eco, n), v)
                && req.message@ == spec_tag_message(n, v))))
        },
{
    let parsed = match parse_manifest(text, eco) {
        Some(d) => d,
        None => {
            return Err(ManifestError::Parse);
        },
    };
    match extract_descriptor(&parsed, eco) {
        Ok(Some(pd)) => Ok(Some(tag_request_for(&pd))),
        Ok(None) => Ok(None),
        Err(e) => Err(e),
    }
}

} // verus!
