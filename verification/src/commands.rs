//! The argument lists handed to the package-manager and forge tools:
//! workspace-wide version propagation, the compatibility check, the
//! dependency-ordered publish, the merged-change-request query, and the
//! forge release entry.

use crate::version::strip_marker;
use vstd::prelude::*;

verus! {

/// The arguments that set every workspace manifest to the bare version,
/// without committing, tagging or pushing anything.
pub open spec fn spec_set_version_args(bare: Seq<char>) -> Seq<Seq<char>> {
    seq![
        "workspaces"@,
        "version"@,
        "--no-git-commit"@,
        "--yes"@,
        "custom"@,
        bare,
        "--force"@,
        "*"@,
    ]
}

/// Strip one leading `v` marker off a version text, if it carries one.
pub fn strip_leading_marker(s: &str) -> (r: &str)
    ensures
        r@ == strip_marker(s@),
{
    proof {
        reveal_strlit("v");
    }
    let n = s.unicode_len();
    if n > 0 && s.get_char(0) == 'v' {
        let bare = s.substring_char(1, n);
        assert(bare@ =~= strip_marker(s@));
        bare
    } else {
        s
    }
}

/// Build the arguments that propagate a resolved version tag into every
/// workspace manifest. The tag's leading marker is stripped: manifests
/// carry the bare version.
pub fn set_version_args(version: &str) -> (r: Vec<String>)
    ensures
        r.deep_view() == spec_set_version_args(strip_marker(version@)),
{
    let bare = strip_leading_marker(version);
    let mut args: Vec<String> = Vec::new();
    args.push(String::from_str("workspaces"));
    args.push(String::from_str("version"));
    args.push(String::from_str("--no-git-commit"));
    args.push(String::from_str("--yes"));
    args.push(String::from_str("custom"));
    args.push(String::from_str(bare));
    args.push(String::from_str("--force"));
    args.push(String::from_str("*"));
    proof {
        assert(args.deep_view() =~~= spec_set_version_args(strip_marker(version@)));
    }
    args
}

/// The arguments that check the whole workspace's public surface against a
/// baseline revision; the optional flag relaxes the check to the default
/// feature set, for packages whose optional features are mutually exclusive.
pub open spec fn spec_semver_checks_args(baseline: Seq<char>, default_features_only: bool) -> Seq<
    Seq<char>,
> {
    seq!["semver-checks"@, "--workspace"@, "--baseline-rev"@, baseline] + (
    if default_features_only {
        seq!["--default-features"@]
    } else {
        Seq::<Seq<char>>::empty()
    })
}

/// Build the compatibility checker's arguments.
pub fn semver_checks_args(baseline: &str, default_features_only: bool) -> (r: Vec<String>)
    ensures
        r.deep_view() == spec_semver_checks_args(baseline@, default_features_only),
{
    let mut args: Vec<String> = Vec::new();
    args.push(String::from_str("semver-checks"));
    args.push(String::from_str("--workspace"));
    args.push(String::from_str("--baseline-rev"));
    args.push(String::from_str(baseline));
    if default_features_only {
        args.push(String::from_str("--default-features"));
    }
    proof {
        assert(args.deep_view() =~~= spec_semver_checks_args(baseline@, default_features_only));
    }
    args
}

/// The arguments that publish the workspace packages in dependency order.
/// `--publish-as-is` is what makes re-publishing an already-published
/// version a successful no-op rather than an error.
pub open spec fn spec_publish_args() -> Seq<Seq<char>> {
    seq!["workspaces"@, "publish"@, "--allow-branch"@, "(main|release)*"@, "--publish-as-is"@]
}

/// Build the publish arguments.
pub fn publish_args() -> (r: Vec<String>)
    ensures
        r.deep_view() == spec_publish_args(),
{
    let mut args: Vec<String> = Vec::new();
    args.push(String::from_str("workspaces"));
    args.push(String::from_str("publish"));
    args.push(String::from_str("--allow-branch"));
    args.push(String::from_str("(main|release)*"));
    args.push(String::from_str("--publish-as-is"));
    proof {
        assert(args.deep_view() =~~= spec_publish_args());
    }
    args
}

/// The arguments that ask the forge for the merged change requests whose
/// search matches the HEAD commit, returning identifier, number and labels.
pub open spec fn spec_pr_list_args(head: Seq<char>) -> Seq<Seq<char>> {
    seq![
        "pr"@,
        "list"@,
        "--search"@,
        head,
        "--state"@,
        "merged"@,
        "--json"@,
        "id,number,labels"@,
    ]
}

/// Build the merged-change-request query arguments for a HEAD commit.
pub fn pr_list_args(head: &str) -> (r: Vec<String>)
    ensures
        r.deep_view() == spec_pr_list_args(head@),
{
    let mut args: Vec<String> = Vec::new();
    args.push(String::from_str("pr"));
    args.push(String::from_str("list"));
    args.push(String::from_str("--search"));
    args.push(String::from_str(head));
    args.push(String::from_str("--state"));
    args.push(String::from_str("merged"));
    args.push(String::from_str("--json"));
    args.push(String::from_str("id,number,labels"));
    proof {
        assert(args.deep_view() =~~= spec_pr_list_args(head@));
    }
    args
}

/// The last `/`-separated segment of a text: the repository's own name
/// within its `owner/name` coordinates.
pub open spec fn spec_repo_name(s: Seq<char>) -> Seq<char>
    decreases s.len(),
{
    if s.len() == 0 {
        s
    } else if s[s.len() - 1] == '/' {
        Seq::<char>::empty()
    } else {
        spec_repo_name(s.drop_last()).push(s[s.len() - 1])
    }
}

proof fn lemma_repo_name_suffix(s: Seq<char>, i: int)
    requires
        0 <= i <= s.len(),
        forall|j: int| i <= j < s.len() ==> s[j] != '/',
        i > 0 ==> s[i - 1] == '/',
    ensures
        spec_repo_name(s) == s.subrange(i, s.len() as int),
    decreases s.len(),
{
    if s.len() == i {
        assert(s.subrange(i, s.len() as int) =~= Seq::<char>::empty());
        if i > 0 {
            assert(s[s.len() - 1] == '/');
        } else {
            assert(s.len() == 0);
            assert(spec_repo_name(s) =~= Seq::<char>::empty());
        }
    } else {
        assert(s[s.len() - 1] != '/');
        lemma_repo_name_suffix(s.drop_last(), i);
        assert(s.subrange(i, s.len() as int) =~= s.drop_last().subrange(
            i,
            s.drop_last().len() as int,
        ).push(s[s.len() - 1]));
    }
}

/// The title of a forge release: the repository name and the bare version,
/// separated by one space.
pub open spec fn spec_forge_release_title(repo: Seq<char>, bare: Seq<char>) -> Seq<char> {
    repo + " "@ + bare
}

/// The arguments that create a forge release entry with auto-generated
/// notes, titled after the repository and the bare version.
pub open spec fn spec_forge_release_args(repo: Seq<char>, bare: Seq<char>) -> Seq<Seq<char>> {
    seq!["release"@, "create"@, "--generate-notes"@, "--title"@, spec_forge_release_title(
        repo,
        bare,
    )]
}

/// The repository's own name out of its `owner/name` coordinates: the last
/// `/`-separated segment.
pub fn repo_name_of(coordinates: &str) -> (r: String)
    ensures
        r@ == spec_repo_name(coordinates@),
{
    let n = coordinates.unicode_len();
    let mut i: usize = n;
    loop
        invariant
            n == coordinates@.len(),
            0 <= i <= n,
            forall|j: int| i <= j < n ==> coordinates@[j] != '/',
        ensures
            0 <= i <= n,
            forall|j: int| i <= j < n ==> coordinates@[j] != '/',
            i > 0 ==> coordinates@[i - 1] == '/',
        decreases i,
    {
        if i == 0 {
            break ;
        }
        if coordinates.get_char(i - 1) == '/' {
            break ;
        }
        i = i - 1;
    }
    let suffix = coordinates.substring_char(i, n);
    proof {
        lemma_repo_name_suffix(coordinates@, i as int);
    }
    String::from_str(suffix)
}

/// Build the forge release arguments from the repository coordinates (as
/// the forge names them, `owner/name`) and the release's tag text. The
/// title carries the bare version, marker stripped.
pub fn forge_release_args(coordinates: &str, tag: &str) -> (r: Vec<String>)
    ensures
        r.deep_view() == spec_forge_release_args(
            spec_repo_name(coordinates@),
            strip_marker(tag@),
        ),
{
    let repo = repo_name_of(coordinates);
    let bare = strip_leading_marker(tag);
    let mut title = repo;
    title.append(" ");
    title.append(bare);
    let mut args: Vec<String> = Vec::new();
    args.push(String::from_str("release"));
    args.push(String::from_str("create"));
    args.push(String::from_str("--generate-notes"));
    args.push(String::from_str("--title"));
    args.push(title);
    proof {
        assert(args.deep_view() =~~= spec_forge_release_args(
            spec_repo_name(coordinates@),
            strip_marker(tag@),
        ));
    }
    args
}

} // verus!
