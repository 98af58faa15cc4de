//! Automatic release tagging for package manifests.
//!
//! The crate scans package manifests of three ecosystems (Cargo, npm,
//! PEP 621/poetry) for an opt-in flag and, where it is set, derives an
//! annotated-tag request (`release-{name}-{version}`) and decides whether the
//! tag store must be touched: an existing tag is skipped, a dry run only
//! reports, and a tag is created at most once per name.

use vstd::prelude::*;

pub mod classify;
pub mod doc;
pub mod extract;
pub mod parse;
pub mod tagging;
pub mod text;

pub use classify::classify_file_name;
pub use doc::Doc;
pub use doc::str_eq;
pub use extract::ManifestError;
pub use extract::PackageDescriptor;
pub use extract::TagRequest;
pub use extract::extract_descriptor;
pub use extract::process_manifest;
pub use extract::tag_request_for;
pub use parse::parse_manifest;
pub use tagging::TagDecision;
pub use tagging::decide_tag_action;
pub use tagging::tag_exists_in;
pub use text::normalize_npm_name;

verus! {

/// The packaging convention a manifest belongs to.
#[derive(Clone, Copy, PartialEq, Eq, Structural, Debug)]
pub enum Ecosystem {
    Cargo,
    Npm,
    Pep621Poetry,
}

} // verus!
