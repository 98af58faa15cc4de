//! Dispatch by file name: which ecosystem's manifest a directory entry is.

use vstd::prelude::*;

use crate::Ecosystem;
use crate::doc::str_eq;

verus! {

/// The ecosystem a file name names: exactly `Cargo.toml`, `package.json` or
/// `pyproject.toml`; any other name is no manifest.
pub open spec fn spec_classify(name: Seq<char>) -> Option<Ecosystem> {
    if name == "Cargo.toml"@ {
        Some(Ecosystem::Cargo)
    } else if name == "package.json"@ {
        Some(Ecosystem::Npm)
    } else if name == "pyproject.toml"@ {
        Some(Ecosystem::Pep621Poetry)
    } else {
        None
    }
}

/// Classify a directory entry's final path component by exact match against
/// the three manifest file names.
pub fn classify_file_name(name: &str) -> (r: Option<Ecosystem>)
    ensures
        r == spec_classify(name@),
{
    if str_eq(name, "Cargo.toml") {
        Some(Ecosystem::Cargo)
    } else if str_eq(name, "package.json") {
        Some(Ecosystem::Npm)
    } else if str_eq(name, "pyproject.toml") {
        Some(Ecosystem::Pep621Poetry)
    } else {
        None
    }
}

} // verus!
