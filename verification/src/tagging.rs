//! The tagging decision: whether a manifest's tag request touches the store.

use vstd::prelude::*;

verus! {

/// What the orchestrator does for one manifest once the tag name is known,
/// the store has been asked whether the tag exists, and the target commit has
/// or has not been resolved.
#[derive(Clone, Copy, PartialEq, Eq, Structural, Debug)]
pub enum TagDecision {
    /// The tag already exists: report and leave the store as it is.
    SkipExisting,
    /// The target commit could not be resolved: fail this manifest only.
    FailUnresolved,
    /// Dry run: report what would be created, touch nothing.
    ReportOnly,
    /// Create the annotated tag.
    CreateTag,
}

/// The decision for one manifest: an existing tag wins over everything,
/// then an unresolved commit, then the dry-run flag; only the last case
/// mutates the store.
pub open spec fn spec_decide(exists: bool, commit_resolved: bool, dry_run: bool) -> TagDecision {
    if exists {
        TagDecision::SkipExisting
    } else if !commit_resolved {
        TagDecision::FailUnresolved
    } else if dry_run {
        TagDecision::ReportOnly
    } else {
        TagDecision::CreateTag
    }
}

/// Decide what to do for one manifest, given what the store answered for the
/// tag name (`exists`), whether the requested commit resolved, and the
/// dry-run flag.
pub fn decide_tag_action(exists: bool, commit_resolved: bool, dry_run: bool) -> (r: TagDecision)
    ensures
        r == spec_decide(exists, commit_resolved, dry_run),
        exists ==> r == TagDecision::SkipExisting,
        dry_run ==> r != TagDecision::CreateTag,
{
    if exists {
        TagDecision::SkipExisting
    } else if !commit_resolved {
        TagDecision::FailUnresolved
    } else if dry_run {
        TagDecision::ReportOnly
    } else {
        TagDecision::CreateTag
    }
}

/// The tag names a listing holds, as a set of character sequences.
pub open spec fn tag_name_set(tags: Seq<String>) -> Set<Seq<char>> {
    Set::new(|n: Seq<char>| exists|i: int| 0 <= i < tags.len() && tags[i]@ == n)
}

/// Whether `name` is among the store's tag names, by exact string match —
/// never by pattern. The listing is handed in as plain strings so the
/// membership test itself is checked.
pub fn tag_exists_in(tags: &Vec<String>, name: &str) -> (r: bool)
    ensures
        r == tag_name_set(tags@).contains(name@),
{
    let n = tags.len();
    let mut i: usize = 0;
    while i < n
        invariant
            i <= n,
            n == tags@.len(),
            forall|j: int| 0 <= j < i ==> tags@[j]@ != name@,
        decreases n - i,
    {
        if crate::doc::str_eq(tags[i].as_str(), name) {
            assert(tag_name_set(tags@).contains(name@));
            return true;
        }
        i = i + 1;
    }
    assert(!tag_name_set(tags@).contains(name@));
    false
}

/// The set of tag names after one manifest has been processed against a store
/// that holds `tags`: the tag is inserted exactly when the decision is
/// `CreateTag`, and the decision sees whether the tag is already present.
pub open spec fn tags_after(
    tags: Set<Seq<char>>,
    tag_name: Seq<char>,
    commit_resolved: bool,
    dry_run: bool,
) -> Set<Seq<char>> {
    if spec_decide(tags.contains(tag_name), commit_resolved, dry_run)
        == TagDecision::CreateTag {
        tags.insert(tag_name)
    } else {
        tags
    }
}

/// A tag name that the store already holds is never recreated: the decision
/// for it is `SkipExisting`, and the store is left unchanged.
pub proof fn lemma_existing_tag_untouched(
    tags: Set<Seq<char>>,
    tag_name: Seq<char>,
    commit_resolved: bool,
    dry_run: bool,
)
    requires
        tags.contains(tag_name),
    ensures
        spec_decide(tags.contains(tag_name), commit_resolved, dry_run)
            == TagDecision::SkipExisting,
        tags_after(tags, tag_name, commit_resolved, dry_run) == tags,
{
}

/// Running the tool twice over the same manifest leaves exactly what one run
/// leaves: the second run finds the tag (or fails to resolve the commit) and
/// touches nothing.
pub proof fn lemma_idempotent(
    tags: Set<Seq<char>>,
    tag_name: Seq<char>,
    commit_resolved: bool,
)
    ensures
        tags_after(
            tags_after(tags, tag_name, commit_resolved, false),
            tag_name,
            commit_resolved,
            false,
        ) == tags_after(tags, tag_name, commit_resolved, false),
        tags_after(tags, tag_name, commit_resolved, false).contains(tag_name)
            <==> commit_resolved || tags.contains(tag_name),
{
    let once = tags_after(tags, tag_name, commit_resolved, false);
    assert(tags_after(once, tag_name, commit_resolved, false) =~= once);
}

/// A dry run never mutates the store, and it is transparent: it reports
/// exactly on the inputs where a real run would create the tag, and a real
/// run after a dry run creates the same store a single real run would.
pub proof fn lemma_dry_run_transparent(
    tags: Set<Seq<char>>,
    tag_name: Seq<char>,
    commit_resolved: bool,
)
    ensures
        tags_after(tags, tag_name, commit_resolved, true) == tags,
        spec_decide(tags.contains(tag_name), commit_resolved, true)
            != TagDecision::CreateTag,
        spec_decide(tags.contains(tag_name), commit_resolved, true)
            == TagDecision::ReportOnly
            <==> spec_decide(tags.contains(tag_name), commit_resolved, false)
                == TagDecision::CreateTag,
        tags_after(
            tags_after(tags, tag_name, commit_resolved, true),
            tag_name,
            commit_resolved,
            false,
        ) == tags_after(tags, tag_name, commit_resolved, false),
{
}

/// An unresolvable commit aborts only this manifest: the store keeps exactly
/// the tags it had, whatever the other flags say.
pub proof fn lemma_unresolved_commit_no_mutation(
    tags: Set<Seq<char>>,
    tag_name: Seq<char>,
    dry_run: bool,
)
    ensures
        tags_after(tags, tag_name, false, dry_run) == tags,
        !tags.contains(tag_name) ==> spec_decide(
            tags.contains(tag_name),
            false,
            dry_run,
        ) == TagDecision::FailUnresolved,
{
}

} // verus!
