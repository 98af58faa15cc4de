//! A key-path-addressable document: what the manifest extractors read.
//!
//! A parsed manifest (TOML or JSON) is held as a tree of tables whose leaves
//! are the values the extractors care about — booleans and strings. Every
//! other value (numbers, arrays, null, dates) is kept only as [`Doc::Other`],
//! since no extraction key path leads through one.

use vstd::prelude::*;

verus! {

/// One node of a parsed manifest document.
pub enum Doc {
    /// A boolean value.
    Bool(bool),
    /// A string value.
    Text(String),
    /// A table of key/value pairs, in the order the parser produced them.
    Table(Vec<(String, Doc)>),
    /// Any other value (number, array, null, date): never read by a key path.
    Other,
}

/// The value under `key` in a table given as its entry sequence: the first
/// entry whose key matches, if any.
pub open spec fn table_get(entries: Seq<(String, Doc)>, key: Seq<char>) -> Option<Doc>
    decreases entries.len(),
{
    if entries.len() == 0 {
        None
    } else if entries[0].0@ == key {
        Some(entries[0].1)
    } else {
        table_get(entries.drop_first(), key)
    }
}

/// The value under `key` in `d`: `None` unless `d` is a table holding `key`.
pub open spec fn doc_get(d: Doc, key: Seq<char>) -> Option<Doc> {
    match d {
        Doc::Table(entries) => table_get(entries@, key),
        _ => None,
    }
}

/// `doc_get` chained through two keys.
pub open spec fn doc_get2(d: Doc, k1: Seq<char>, k2: Seq<char>) -> Option<Doc> {
    match doc_get(d, k1) {
        Some(inner) => doc_get(inner, k2),
        None => None,
    }
}

/// `doc_get` chained through three keys.
pub open spec fn doc_get3(d: Doc, k1: Seq<char>, k2: Seq<char>, k3: Seq<char>) -> Option<
    Doc,
> {
    match doc_get2(d, k1, k2) {
        Some(inner) => doc_get(inner, k3),
        None => None,
    }
}

/// `doc_get` chained through four keys.
pub open spec fn doc_get4(
    d: Doc,
    k1: Seq<char>,
    k2: Seq<char>,
    k3: Seq<char>,
    k4: Seq<char>,
) -> Option<Doc> {
    match doc_get3(d, k1, k2, k3) {
        Some(inner) => doc_get(inner, k4),
        None => None,
    }
}

/// The boolean held by `d`, if it is one.
pub open spec fn doc_as_bool(d: Doc) -> Option<bool> {
    match d {
        Doc::Bool(b) => Some(b),
        _ => None,
    }
}

/// The string held by `d`, if it is one.
pub open spec fn doc_as_text(d: Doc) -> Option<Seq<char>> {
    match d {
        Doc::Text(s) => Some(s@),
        _ => None,
    }
}

/// Compare two string slices by their character sequences.
pub fn str_eq(a: &str, b: &str) -> (r: bool)
    ensures
        r == (a@ == b@),
{
    let owned_a = a.to_owned();
    let owned_b = b.to_owned();
    owned_a == owned_b
}

impl Doc {
    /// Look `key` up in this document: `Some` exactly when the document is a
    /// table with an entry for `key`, and then the first such entry's value.
    pub fn get<'a>(&'a self, key: &str) -> (r: Option<&'a Doc>)
        ensures
            match r {
                Some(v) => doc_get(*self, key@) == Some(*v),
                None => doc_get(*self, key@) is None,
            },
    {
        match self {
            Doc::Table(entries) => {
                let n = entries.len();
                let mut i: usize = 0;
                assert(entries@.skip(0) =~= entries@);
                while i < n
                    invariant
                        n == entries@.len(),
                        i <= n,
                        doc_get(*self, key@) == table_get(entries@, key@),
                        table_get(entries@, key@) == table_get(entries@.skip(i as int), key@),
                    decreases n - i,
                {
                    assert(entries@.skip(i as int).drop_first() =~= entries@.skip(i as int + 1));
                    assert(entries@.skip(i as int)[0] == entries@[i as int]);
                    if str_eq(entries[i].0.as_str(), key) {
                        assert(table_get(entries@.skip(i as int), key@) == Some(
                            entries@[i as int].1,
                        ));
                        return Some(&entries[i].1);
                    }
                    i = i + 1;
                }
                assert(entries@.skip(n as int) =~= Seq::<(String, Doc)>::empty());
                None
            },
            _ => None,
        }
    }

    /// Look a two-key path up.
    pub fn get2<'a>(&'a self, k1: &str, k2: &str) -> (r: Option<&'a Doc>)
        ensures
            match r {
                Some(v) => doc_get2(*self, k1@, k2@) == Some(*v),
                None => doc_get2(*self, k1@, k2@) is None,
            },
    {
        match self.get(k1) {
            Some(inner) => inner.get(k2),
            None => None,
        }
    }

    /// Look a three-key path up.
    pub fn get3<'a>(&'a self, k1: &str, k2: &str, k3: &str) -> (r: Option<&'a Doc>)
        ensures
            match r {
                Some(v) => doc_get3(*self, k1@, k2@, k3@) == Some(*v),
                None => doc_get3(*self, k1@, k2@, k3@) is None,
            },
    {
        match self.get2(k1, k2) {
            Some(inner) => inner.get(k3),
            None => None,
        }
    }

    /// Look a four-key path up.
    pub fn get4<'a>(&'a self, k1: &str, k2: &str, k3: &str, k4: &str) -> (r: Option<&'a Doc>)
        ensures
            match r {
                Some(v) => doc_get4(*self, k1@, k2@, k3@, k4@) == Some(*v),
                None => doc_get4(*self, k1@, k2@, k3@, k4@) is None,
            },
    {
        match self.get3(k1, k2, k3) {
            Some(inner) => inner.get(k4),
            None => None,
        }
    }

    /// The boolean this document holds, if it is a boolean.
    pub fn as_bool(&self) -> (r: Option<bool>)
        ensures
            r == doc_as_bool(*self),
    {
        match self {
            Doc::Bool(b) => Some(*b),
            _ => None,
        }
    }

    /// The string this document holds, if it is a string.
    pub fn as_text<'a>(&'a self) -> (r: Option<&'a str>)
        ensures
            match r {
                Some(s) => doc_as_text(*self) == Some(s@),
                None => doc_as_text(*self) is None,
            },
    {
        match self {
            Doc::Text(s) => Some(s.as_str()),
            _ => None,
        }
    }
}

} // verus!
