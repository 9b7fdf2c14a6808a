//! Decision logic for a multi-package release pipeline.
//!
//! The library holds the parts of the pipeline that decide rather than act:
//! resolving the next version tag (including forced and pre-release
//! overrides), choosing the arguments handed to the changelog, package-manager
//! and compatibility tools, the releasability gate over the forge's
//! change-request data, and the idempotent tag sequence. Running the external
//! tools, the repository and the network is left to the thin binary built on
//! top of this crate.

use vstd::prelude::*;

mod cliff;
mod commands;
mod fixture;
mod json;
mod manifest;
mod pipeline;
mod releasable;
mod tagging;
mod version;

pub use cliff::{
    changelog_write_args, get_version_from_cliff_output, latest_query_args, next_version_query_args,
    opt_tag_view, spec_base_args, spec_changelog_write_args, spec_config_args,
    spec_latest_query_args, spec_next_version_query_args, spec_relaxed_tag_pattern,
    spec_strict_tag_pattern, spec_tag_pattern_args, url_valid,
};
pub use commands::{
    forge_release_args, pr_list_args, publish_args, repo_name_of, semver_checks_args,
    set_version_args, spec_forge_release_args, spec_forge_release_title, spec_pr_list_args,
    spec_publish_args, spec_repo_name, spec_semver_checks_args, spec_set_version_args,
    strip_leading_marker,
};
pub use fixture::{CargoWorkspaceModel, ChangelogConfig, CrateModel};
pub use json::{
    json_array_len, json_first_array_field_len, json_first_array_string_at,
    json_first_string_field, json_first_u64_field,
};
pub use manifest::{
    get_current_version_from_cargo_toml, spec_manifest_version, toml_root_has_key, toml_string_at2,
    toml_string_at3,
};
pub use pipeline::{
    AfterPublish, BaselineOutcome, BaselineQueryStep, CompatCheckStep, ForgeReleaseStep,
    ManifestStep, MaterializeStep, PrepareComplete, PublishCratesStep, PublishComplete,
    PublishStart, PushStep, QueryVersionStep, ReleasabilityOutcome, ReleasabilityQuery,
    ResolveBaselineStep, SetVersionStep, TagStep, begin_prepare, begin_publish,
};
pub use releasable::{
    decide_releasable, releasable_change_from_output, spec_labels_match, spec_releasable_outcome,
};
pub use tagging::{
    TagAction, decide_tag_action, lemma_tag_idempotent, opt_commit_view, spec_tag_action,
    spec_tag_push_refspec, spec_tag_ref_name, tag_push_refspec, tag_ref_name,
};
pub use version::{
    VersionTag, canonical_tag, has_dev_marker, input_version_to_version_tag,
    lemma_empty_override_like_none, lemma_parse_round_trip, semver_valid, spec_dev_marker,
    spec_normalize_override, str_has_dev_marker, strip_marker,
};

verus! {

/// How a pipeline invocation can fail. Every variant aborts the run;
/// the compatibility gate's "no prior release" case is not an error
/// and is represented separately.
#[derive(Clone, Copy, Debug, PartialEq, Eq, Structural)]
pub enum ReleaseError {
    /// A supplied version override does not follow semantic-version grammar.
    VersionFormat,
    /// An external tool exited with a non-zero status.
    ToolInvocation,
    /// An external tool's structured output did not have the expected shape.
    Parse,
    /// The compatibility checker reported an incompatible change.
    Gate,
    /// A repository operation (tag, push, revision lookup) failed.
    GitOperation,
}

impl ReleaseError {
    /// A short description of the failure, for logs and error wrapping.
    pub fn describe(&self) -> (r: &'static str)
        ensures
            self == ReleaseError::VersionFormat ==> r@ == "invalid version format"@,
            self == ReleaseError::ToolInvocation ==> r@ == "an external tool failed"@,
            self == ReleaseError::Parse ==> r@ == "unexpected tool output"@,
            self == ReleaseError::Gate ==> r@ == "compatibility check failed"@,
            self == ReleaseError::GitOperation ==> r@ == "repository operation failed"@,
    {
        match self {
            ReleaseError::VersionFormat => "invalid version format",
            ReleaseError::ToolInvocation => "an external tool failed",
            ReleaseError::Parse => "unexpected tool output",
            ReleaseError::Gate => "compatibility check failed",
            ReleaseError::GitOperation => "repository operation failed",
        }
    }
}

/// The label that marks a merged change request as a release trigger.
pub open spec fn spec_release_label() -> Seq<char> {
    "hra-release"@
}

/// The label that marks a merged change request as a release trigger.
pub fn release_label() -> (r: &'static str)
    ensures
        r@ == spec_release_label(),
{
    "hra-release"
}

} // verus!
