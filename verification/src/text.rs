//! Name normalization and the tag-name / tag-message formats.

use vstd::prelude::*;

use crate::Ecosystem;

verus! {

/// Relies on `String::push`: appends the given character to the end of the
/// string.
pub assume_specification[ String::push ](s: &mut String, ch: char)
    ensures
        final(s)@ == old(s)@.push(ch),
;

/// What one character of an npm package name becomes in a tag name:
/// `@` is stripped, `/` becomes `__`, everything else stays.
pub open spec fn norm_char(c: char) -> Seq<char> {
    if c == '@' {
        Seq::empty()
    } else if c == '/' {
        seq!['_', '_']
    } else {
        seq![c]
    }
}

/// An npm package name with `@` stripped and `/` replaced by `__`.
pub open spec fn npm_normalize(s: Seq<char>) -> Seq<char>
    decreases s.len(),
{
    if s.len() == 0 {
        Seq::empty()
    } else {
        npm_normalize(s.drop_last()) + norm_char(s.last())
    }
}

/// The name as it appears in the tag: normalized for npm, untouched for the
/// other two ecosystems.
pub open spec fn spec_tag_part(eco: Ecosystem, name: Seq<char>) -> Seq<char> {
    match eco {
        Ecosystem::Npm => npm_normalize(name),
        _ => name,
    }
}

/// Normalize an npm package name: strip every `@`, replace every `/` by `__`.
pub fn normalize_npm_name(s: &str) -> (r: String)
    ensures
        r@ == npm_normalize(s@),
{
    let mut out = String::new();
    let n = s.unicode_len();
    let mut i: usize = 0;
    assert(s@.take(0) =~= Seq::<char>::empty());
    while i < n
        invariant
            i <= n,
            n == s@.len(),
            out@ == npm_normalize(s@.take(i as int)),
        decreases n - i,
    {
        let c = s.get_char(i);
        proof {
            assert(s@.take(i + 1).drop_last() =~= s@.take(i as int));
            assert(s@.take(i + 1).last() == s@[i as int]);
        }
        if c == '@' {
        } else if c == '/' {
            out.append("__");
            proof {
                reveal_strlit("__");
                assert("__"@ =~= seq!['_', '_']);
            }
        } else {
            let ghost before = out@;
            out.push(c);
            assert(out@ =~= before + seq![c]);
        }
        i = i + 1;
    }
    assert(s@.take(n as int) =~= s@);
    out
}

/// The tag name derived from a (normalized) package name and a version.
pub open spec fn spec_tag_name(name: Seq<char>, version: Seq<char>) -> Seq<char> {
    "release-"@ + name + "-"@ + version
}

/// The message of the annotated tag for a package name and version.
pub open spec fn spec_tag_message(name: Seq<char>, version: Seq<char>) -> Seq<char> {
    "automatic release tag of "@ + name + " ("@ + version + ")"@
}

/// Build the tag name `release-{name}-{version}`.
pub fn tag_name_string(name: &str, version: &str) -> (r: String)
    ensures
        r@ == spec_tag_name(name@, version@),
{
    let mut out = String::from_str("release-");
    out.append(name);
    out.append("-");
    out.append(version);
    assert(out@ =~= spec_tag_name(name@, version@));
    out
}

/// Build the tag message `automatic release tag of {name} ({version})`.
pub fn tag_message_string(name: &str, version: &str) -> (r: String)
    ensures
        r@ == spec_tag_message(name@, version@),
{
    let mut out = String::from_str("automatic release tag of ");
    out.append(name);
    out.append(" (");
    out.append(version);
    out.append(")");
    assert(out@ =~= spec_tag_message(name@, version@));
    out
}

} // verus!
