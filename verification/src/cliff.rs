//! The changelog tool adapter: the argument lists handed to the external
//! changelog generator, and the version read back out of its structured
//! output.
//!
//! The adapter's policy is verified: how the configuration reference is
//! passed (path against URL), which tag pattern constrains the diff range
//! (release-form forced tags tighten it; pre-release or absent ones relax
//! it), when the changelog file is created against prepended, and when the
//! tool bumps on its own against being forced to a tag.

use crate::json::{json_first_string_field, parse_json_first_string_field};
use crate::version::{VersionTag, has_dev_marker};
use crate::ReleaseError;
use vstd::prelude::*;

verus! {

/// Whether the text parses as an absolute URL, exactly as `url::Url::parse`
/// judges it.
pub uninterp spec fn url_valid(s: Seq<char>) -> bool;

/// Relies on `url::Url::parse`: whether a text is an absolute URL depends on
/// the text alone.
#[verifier::external_body]
fn url_parse_ok(s: &str) -> (r: bool)
    ensures
        r == url_valid(s@),
{
    url::Url::parse(s).is_ok()
}

/// The view of an optional forced tag.
pub open spec fn opt_tag_view(o: Option<VersionTag>) -> Option<Seq<char>> {
    match o {
        Option::None => Option::None,
        Option::Some(t) => Option::Some(t@),
    }
}

/// How the configuration reference is handed over: by URL when it parses as
/// one, by file path otherwise.
pub open spec fn spec_config_args(cfg: Seq<char>) -> Seq<Seq<char>> {
    if url_valid(cfg) {
        seq!["--config-url"@, cfg]
    } else {
        seq!["--config"@, cfg]
    }
}

/// The tag pattern that admits release-form tags only.
pub open spec fn spec_strict_tag_pattern() -> Seq<char> {
    "^v\\d+.\\d+.\\d+$"@
}

/// The tag pattern that admits pre-release tags as well.
pub open spec fn spec_relaxed_tag_pattern() -> Seq<char> {
    "^v\\d+.\\d+.\\d+"@
}

/// Which tag pattern constrains the tool's diff range: a forced tag without
/// the pre-release marker tightens the pattern to release-form tags only;
/// a pre-release forced tag, or none at all, relaxes it.
pub open spec fn spec_tag_pattern_args(force_tag: Option<Seq<char>>) -> Seq<Seq<char>> {
    match force_tag {
        Option::Some(t) => if !has_dev_marker(t) {
            seq!["--tag-pattern"@, spec_strict_tag_pattern()]
        } else {
            seq!["--tag-pattern"@, spec_relaxed_tag_pattern()]
        },
        Option::None => seq!["--tag-pattern"@, spec_relaxed_tag_pattern()],
    }
}

/// The arguments common to every changelog tool invocation.
pub open spec fn spec_base_args(cfg: Seq<char>, force_tag: Option<Seq<char>>) -> Seq<Seq<char>> {
    seq!["--use-branch-tags"@] + spec_config_args(cfg) + spec_tag_pattern_args(force_tag)
}

/// The arguments that materialize the changelog file for the working tree:
/// prepend when the file already exists, create it otherwise; bump freely
/// when no tag is forced, pin the tag otherwise.
pub open spec fn spec_changelog_write_args(
    cfg: Seq<char>,
    force_tag: Option<Seq<char>>,
    changelog_exists: bool,
) -> Seq<Seq<char>> {
    spec_base_args(cfg, force_tag) + seq!["--unreleased"@] + (if changelog_exists {
        seq!["--prepend"@, "CHANGELOG.md"@]
    } else {
        seq!["--output"@]
    }) + (match force_tag {
        Option::Some(t) => seq!["--tag"@, t],
        Option::None => seq!["--bump"@],
    })
}

/// The arguments that query the tool for the next version as structured
/// output, without touching the changelog file.
pub open spec fn spec_next_version_query_args(
    cfg: Seq<char>,
    force_tag: Option<Seq<char>>,
) -> Seq<Seq<char>> {
    spec_base_args(cfg, force_tag) + seq!["--unreleased"@, "--bump"@, "--context"@] + (
    match force_tag {
        Option::Some(t) => seq!["--tag"@, t],
        Option::None => Seq::<Seq<char>>::empty(),
    })
}

/// The arguments that query the tool for the latest already-released
/// version, ignoring unreleased history.
pub open spec fn spec_latest_query_args(
    cfg: Seq<char>,
    force_tag: Option<Seq<char>>,
) -> Seq<Seq<char>> {
    spec_base_args(cfg, force_tag) + seq!["--latest"@, "--context"@]
}

/// Build the arguments common to every changelog tool invocation.
fn base_args(cliff_config: &str, force_tag: &Option<VersionTag>) -> (r: Vec<String>)
    ensures
        r.deep_view() == spec_base_args(cliff_config@, opt_tag_view(*force_tag)),
{
    let mut args: Vec<String> = Vec::new();
    args.push(String::from_str("--use-branch-tags"));
    if url_parse_ok(cliff_config) {
        args.push(String::from_str("--config-url"));
    } else {
        args.push(String::from_str("--config"));
    }
    args.push(String::from_str(cliff_config));
    args.push(String::from_str("--tag-pattern"));
    let strict = match force_tag {
        Some(t) => !t.is_prerelease(),
        None => false,
    };
    if strict {
        args.push(String::from_str("^v\\d+.\\d+.\\d+$"));
    } else {
        args.push(String::from_str("^v\\d+.\\d+.\\d+"));
    }
    proof {
        assert(args.deep_view() =~~= spec_base_args(cliff_config@, opt_tag_view(*force_tag)));
    }
    args
}

/// Build the arguments that materialize the changelog file.
pub fn changelog_write_args(
    cliff_config: &str,
    force_tag: &Option<VersionTag>,
    changelog_exists: bool,
) -> (r: Vec<String>)
    ensures
        r.deep_view() == spec_changelog_write_args(
            cliff_config@,
            opt_tag_view(*force_tag),
            changelog_exists,
        ),
{
    let mut args = base_args(cliff_config, force_tag);
    args.push(String::from_str("--unreleased"));
    if changelog_exists {
        args.push(String::from_str("--prepend"));
        args.push(String::from_str("CHANGELOG.md"));
    } else {
        args.push(String::from_str("--output"));
    }
    match force_tag {
        Some(t) => {
            args.push(String::from_str("--tag"));
            args.push(String::from_str(t.as_str()));
        },
        None => {
            args.push(String::from_str("--bump"));
        },
    }
    proof {
        assert(args.deep_view() =~~= spec_changelog_write_args(
            cliff_config@,
            opt_tag_view(*force_tag),
            changelog_exists,
        ));
    }
    args
}

/// Build the arguments that query the tool for the next version.
pub fn next_version_query_args(cliff_config: &str, force_tag: &Option<VersionTag>) -> (r: Vec<
    String,
>)
    ensures
        r.deep_view() == spec_next_version_query_args(cliff_config@, opt_tag_view(*force_tag)),
{
    let mut args = base_args(cliff_config, force_tag);
    args.push(String::from_str("--unreleased"));
    args.push(String::from_str("--bump"));
    args.push(String::from_str("--context"));
    match force_tag {
        Some(t) => {
            args.push(String::from_str("--tag"));
            args.push(String::from_str(t.as_str()));
        },
        None => {},
    }
    proof {
        assert(args.deep_view() =~~= spec_next_version_query_args(
            cliff_config@,
            opt_tag_view(*force_tag),
        ));
    }
    args
}

/// Build the arguments that query the tool for the latest released version.
pub fn latest_query_args(cliff_config: &str, force_tag: &Option<VersionTag>) -> (r: Vec<String>)
    ensures
        r.deep_view() == spec_latest_query_args(cliff_config@, opt_tag_view(*force_tag)),
{
    let mut args = base_args(cliff_config, force_tag);
    args.push(String::from_str("--latest"));
    args.push(String::from_str("--context"));
    proof {
        assert(args.deep_view() =~~= spec_latest_query_args(
            cliff_config@,
            opt_tag_view(*force_tag),
        ));
    }
    args
}

/// Read the version the changelog tool computed out of its structured
/// output: the `version` string field of the first entry. Anything else —
/// not an array, an empty array, a missing or non-string field — is a
/// parse failure.
pub fn get_version_from_cliff_output(output: &[u8]) -> (r: Result<String, ReleaseError>)
    ensures
        r is Ok <==> json_first_string_field(output@, "version"@) is Some,
        r matches Ok(s) ==> json_first_string_field(output@, "version"@) == Some(s@),
        r matches Err(e) ==> e == ReleaseError::Parse,
{
    match parse_json_first_string_field(output, "version") {
        Some(version) => Ok(version),
        None => Err(ReleaseError::Parse),
    }
}

} // verus!
