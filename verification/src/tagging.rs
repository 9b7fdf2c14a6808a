//! The idempotent tag step: what to do about a version tag at HEAD, and the
//! reference names used to address and push it.

use vstd::prelude::*;

verus! {

/// What the orchestrator does about the target tag.
#[derive(Clone, Copy, Debug, PartialEq, Eq, Structural)]
pub enum TagAction {
    /// The tag exists and already points at HEAD: nothing is done.
    AlreadyTagged,
    /// The tag exists but points at another commit: it is moved to HEAD.
    ForceUpdate,
    /// The tag does not exist: it is created at HEAD.
    Create,
}

/// The view of an optional commit identifier.
pub open spec fn opt_commit_view(o: Option<&String>) -> Option<Seq<char>> {
    match o {
        Option::None => Option::None,
        Option::Some(s) => Option::Some(s@),
    }
}

/// The tag decision as a mathematical function of the commit the tag points
/// at (if it exists) and the HEAD commit.
pub open spec fn spec_tag_action(existing: Option<Seq<char>>, head: Seq<char>) -> TagAction {
    match existing {
        Option::None => TagAction::Create,
        Option::Some(commit) => if commit == head {
            TagAction::AlreadyTagged
        } else {
            TagAction::ForceUpdate
        },
    }
}

/// Decide the idempotent tag step. Re-running the orchestrator on a commit
/// that already carries the target tag is a no-op; a tag that points
/// elsewhere is moved, and a missing tag is created.
pub fn decide_tag_action(existing: Option<&String>, head: &String) -> (a: TagAction)
    ensures
        a == spec_tag_action(opt_commit_view(existing), head@),
{
    match existing {
        None => TagAction::Create,
        Some(commit) => if commit.eq(head) {
            TagAction::AlreadyTagged
        } else {
            TagAction::ForceUpdate
        },
    }
}

/// The fully qualified reference name of a tag, `refs/tags/` ahead of it.
pub open spec fn spec_tag_ref_name(tag: Seq<char>) -> Seq<char> {
    "refs/tags/"@ + tag
}

/// The fully qualified reference name used to look a tag up.
pub fn tag_ref_name(tag: &str) -> (r: String)
    ensures
        r@ == spec_tag_ref_name(tag@),
{
    let mut r = String::from_str("refs/tags/");
    r.append(tag);
    r
}

/// The refspec that pushes a tag to the same name on the remote.
pub open spec fn spec_tag_push_refspec(tag: Seq<char>) -> Seq<char> {
    "refs/tags/"@ + tag + ":refs/tags/"@ + tag
}

/// The refspec handed to the remote push for a tag.
pub fn tag_push_refspec(tag: &str) -> (r: String)
    ensures
        r@ == spec_tag_push_refspec(tag@),
{
    let mut r = String::from_str("refs/tags/");
    r.append(tag);
    r.append(":refs/tags/");
    r.append(tag);
    r
}

/// Law: tagging is idempotent. Whenever the tag already points at HEAD, the
/// decided action changes nothing; and the decision never fails, so a
/// re-run of the orchestrator over an already-tagged commit cannot error.
pub proof fn lemma_tag_idempotent(head: Seq<char>)
    ensures
        spec_tag_action(Option::Some(head), head) == TagAction::AlreadyTagged,
{
}

} // verus!
