//! The two pipelines, as verified step sequences.
//!
//! Each pipeline is a chain of step values: every step carries the argument
//! list for one external tool invocation, and consuming it with the tool's
//! outcome yields the next step or the pipeline's end. The caller owns the
//! processes, the repository and the network; the order of the steps, what
//! each invocation is handed, and how every outcome is interpreted are all
//! stated here and verified. A step value can be used once: the sequence
//! cannot be run out of order.

use crate::cliff::{
    changelog_write_args, get_version_from_cliff_output, latest_query_args,
    next_version_query_args, opt_tag_view, spec_changelog_write_args, spec_latest_query_args,
    spec_next_version_query_args,
};
use crate::commands::{
    forge_release_args, pr_list_args, publish_args, semver_checks_args, set_version_args,
    spec_forge_release_args, spec_pr_list_args, spec_publish_args, spec_repo_name,
    spec_semver_checks_args, spec_set_version_args,
};
use crate::json::json_first_string_field;
use crate::manifest::{get_current_version_from_cargo_toml, spec_manifest_version};
use crate::releasable::{releasable_change_from_output, spec_releasable_outcome};
use crate::tagging::{TagAction, decide_tag_action, opt_commit_view, spec_tag_action,
    spec_tag_push_refspec, spec_tag_ref_name, tag_push_refspec, tag_ref_name};
use crate::version::{
    VersionTag, input_version_to_version_tag, spec_normalize_override, strip_marker,
};
use crate::ReleaseError;
use vstd::prelude::*;

verus! {

// ------------------------------------------------------------------
// Release preparation: resolve the version, write the changelog,
// propagate the version, then gate on API compatibility.
// ------------------------------------------------------------------
/// The first step of release preparation: the changelog tool materializes
/// the changelog file for the working tree.
#[derive(Debug)]
pub struct MaterializeStep {
    config: String,
    force: Option<VersionTag>,
    changelog_exists: bool,
    default_features_only: bool,
    args: Vec<String>,
}

/// Begin release preparation. The optional override is normalized first —
/// an empty string counts as no override, anything else must be a valid
/// version — and nothing at all runs when it is malformed.
pub fn begin_prepare(
    cliff_config: String,
    force_version: Option<String>,
    changelog_exists: bool,
    default_features_only: bool,
) -> (r: Result<MaterializeStep, ReleaseError>)
    ensures
        r is Ok <==> spec_normalize_override(force_version.deep_view()) is Ok,
        r matches Ok(m) ==> {
            &&& m.wf()
            &&& m.config() == cliff_config@
            &&& m.force() == spec_normalize_override(force_version.deep_view())->Ok_0
            &&& m.changelog_exists() == changelog_exists
            &&& m.default_features_only() == default_features_only
        },
        r matches Err(e) ==> e == ReleaseError::VersionFormat,
{
    let force = input_version_to_version_tag(force_version)?;
    let args = changelog_write_args(cliff_config.as_str(), &force, changelog_exists);
    Ok(
        MaterializeStep {
            config: cliff_config,
            force,
            changelog_exists,
            default_features_only,
            args,
        },
    )
}

impl MaterializeStep {
    /// The configuration reference every invocation is pointed at.
    pub closed spec fn config(self) -> Seq<char> {
        self.config@
    }

    /// The normalized forced tag, if one was supplied.
    pub closed spec fn force(self) -> Option<Seq<char>> {
        opt_tag_view(self.force)
    }

    /// Whether the changelog file already existed when preparation began.
    pub closed spec fn changelog_exists(self) -> bool {
        self.changelog_exists
    }

    /// Whether the compatibility check is relaxed to default features.
    pub closed spec fn default_features_only(self) -> bool {
        self.default_features_only
    }

    /// The step's argument list matches its inputs.
    pub closed spec fn wf(self) -> bool {
        self.args.deep_view() == spec_changelog_write_args(
            self.config@,
            opt_tag_view(self.force),
            self.changelog_exists,
        )
    }

    /// The changelog tool's arguments for materializing the changelog.
    pub fn args(&self) -> (r: &Vec<String>)
        requires
            self.wf(),
        ensures
            r.deep_view() == spec_changelog_write_args(
                self.config(),
                self.force(),
                self.changelog_exists(),
            ),
    {
        &self.args
    }

    /// Consume the materialize outcome. A failed tool invocation aborts the
    /// pipeline; success moves on to querying the resolved version.
    pub fn finish(self, exit_ok: bool) -> (r: Result<QueryVersionStep, ReleaseError>)
        requires
            self.wf(),
        ensures
            r is Ok <==> exit_ok,
            r matches Ok(q) ==> {
                &&& q.wf()
                &&& q.config() == self.config()
                &&& q.force() == self.force()
                &&& q.default_features_only() == self.default_features_only()
            },
            r matches Err(e) ==> e == ReleaseError::ToolInvocation,
    {
        if !exit_ok {
            return Err(ReleaseError::ToolInvocation);
        }
        let args = next_version_query_args(self.config.as_str(), &self.force);
        Ok(
            QueryVersionStep {
                config: self.config,
                force: self.force,
                default_features_only: self.default_features_only,
                args,
            },
        )
    }
}

/// The second step: the changelog tool is queried for the version it
/// resolved, as structured output.
#[derive(Debug)]
pub struct QueryVersionStep {
    config: String,
    force: Option<VersionTag>,
    default_features_only: bool,
    args: Vec<String>,
}

impl QueryVersionStep {
    /// The configuration reference every invocation is pointed at.
    pub closed spec fn config(self) -> Seq<char> {
        self.config@
    }

    /// The normalized forced tag, if one was supplied.
    pub closed spec fn force(self) -> Option<Seq<char>> {
        opt_tag_view(self.force)
    }

    /// Whether the compatibility check is relaxed to default features.
    pub closed spec fn default_features_only(self) -> bool {
        self.default_features_only
    }

    /// The step's argument list matches its inputs.
    pub closed spec fn wf(self) -> bool {
        self.args.deep_view() == spec_next_version_query_args(
            self.config@,
            opt_tag_view(self.force),
        )
    }

    /// The changelog tool's arguments for the structured version query.
    pub fn args(&self) -> (r: &Vec<String>)
        requires
            self.wf(),
        ensures
            r.deep_view() == spec_next_version_query_args(self.config(), self.force()),
    {
        &self.args
    }

    /// Consume the query's standard output. The resolved version is exactly
    /// the tool's answer — the pipeline adds no increment of its own — and
    /// an answer of the wrong shape is a parse failure.
    pub fn finish(self, stdout: &[u8]) -> (r: Result<SetVersionStep, ReleaseError>)
        requires
            self.wf(),
        ensures
            r is Ok <==> json_first_string_field(stdout@, "version"@) is Some,
            r matches Ok(s) ==> {
                &&& s.wf()
                &&& Some(s.next_version()) == json_first_string_field(stdout@, "version"@)
                &&& s.config() == self.config()
                &&& s.force() == self.force()
                &&& s.default_features_only() == self.default_features_only()
            },
            r matches Err(e) ==> e == ReleaseError::Parse,
    {
        let version = get_version_from_cliff_output(stdout)?;
        let args = set_version_args(version.as_str());
        Ok(
            SetVersionStep {
                config: self.config,
                force: self.force,
                default_features_only: self.default_features_only,
                version,
                args,
            },
        )
    }
}

/// The third step: the package manager propagates the resolved version
/// into every workspace manifest, committing nothing.
#[derive(Debug)]
pub struct SetVersionStep {
    config: String,
    force: Option<VersionTag>,
    default_features_only: bool,
    version: String,
    args: Vec<String>,
}

impl SetVersionStep {
    /// The configuration reference every invocation is pointed at.
    pub closed spec fn config(self) -> Seq<char> {
        self.config@
    }

    /// The normalized forced tag, if one was supplied.
    pub closed spec fn force(self) -> Option<Seq<char>> {
        opt_tag_view(self.force)
    }

    /// Whether the compatibility check is relaxed to default features.
    pub closed spec fn default_features_only(self) -> bool {
        self.default_features_only
    }

    /// The version the changelog tool resolved, marker included.
    pub closed spec fn next_version(self) -> Seq<char> {
        self.version@
    }

    /// The step's argument list matches its inputs.
    pub closed spec fn wf(self) -> bool {
        self.args.deep_view() == spec_set_version_args(strip_marker(self.version@))
    }

    /// The resolved version, marker included.
    pub fn version(&self) -> (r: &String)
        ensures
            r@ == self.next_version(),
    {
        &self.version
    }

    /// The package manager's arguments: the bare version, workspace-wide,
    /// with no commit, tag or push.
    pub fn args(&self) -> (r: &Vec<String>)
        requires
            self.wf(),
        ensures
            r.deep_view() == spec_set_version_args(strip_marker(self.next_version())),
    {
        &self.args
    }

    /// Consume the version-set outcome. A failed tool invocation aborts the
    /// pipeline; success moves on to the compatibility gate's baseline
    /// lookup.
    pub fn finish(self, exit_ok: bool) -> (r: Result<BaselineQueryStep, ReleaseError>)
        requires
            self.wf(),
        ensures
            r is Ok <==> exit_ok,
            r matches Ok(b) ==> {
                &&& b.wf()
                &&& b.config() == self.config()
                &&& b.force() == self.force()
                &&& b.default_features_only() == self.default_features_only()
                &&& b.next_version() == self.next_version()
            },
            r matches Err(e) ==> e == ReleaseError::ToolInvocation,
    {
        if !exit_ok {
            return Err(ReleaseError::ToolInvocation);
        }
        let args = latest_query_args(self.config.as_str(), &self.force);
        Ok(
            BaselineQueryStep {
                default_features_only: self.default_features_only,
                version: self.version,
                args,
                config: self.config,
                force: self.force,
            },
        )
    }
}

/// The fourth step: the changelog tool is asked for the latest released
/// version, to locate the compatibility baseline.
#[derive(Debug)]
pub struct BaselineQueryStep {
    config: String,
    force: Option<VersionTag>,
    default_features_only: bool,
    version: String,
    args: Vec<String>,
}

/// What the baseline lookup decided.
#[derive(Debug)]
pub enum BaselineOutcome {
    /// No prior release exists. This is the one tool failure the pipeline
    /// tolerates: no compatibility check runs, and preparation completes with no
    /// baseline compared.
    NoPriorRelease(PrepareComplete),
    /// A released tag was found; its commit becomes the comparison baseline.
    Found(ResolveBaselineStep),
}

impl BaselineQueryStep {
    /// The configuration reference every invocation is pointed at.
    pub closed spec fn config(self) -> Seq<char> {
        self.config@
    }

    /// The normalized forced tag, if one was supplied.
    pub closed spec fn force(self) -> Option<Seq<char>> {
        opt_tag_view(self.force)
    }

    /// Whether the compatibility check is relaxed to default features.
    pub closed spec fn default_features_only(self) -> bool {
        self.default_features_only
    }

    /// The version the changelog tool resolved, marker included.
    pub closed spec fn next_version(self) -> Seq<char> {
        self.version@
    }

    /// The step's argument list matches its inputs.
    pub closed spec fn wf(self) -> bool {
        self.args.deep_view() == spec_latest_query_args(self.config@, opt_tag_view(self.force))
    }

    /// The changelog tool's arguments for the latest-release query.
    pub fn args(&self) -> (r: &Vec<String>)
        requires
            self.wf(),
        ensures
            r.deep_view() == spec_latest_query_args(self.config(), self.force()),
    {
        &self.args
    }

    /// Consume the lookup's standard output. No readable released version
    /// means "first release": the compatibility check is skipped and preparation
    /// completes successfully. A readable one becomes the baseline tag.
    pub fn finish(self, stdout: &[u8]) -> (r: BaselineOutcome)
        requires
            self.wf(),
        ensures
            json_first_string_field(stdout@, "version"@) is None ==> (r matches
                BaselineOutcome::NoPriorRelease(c) && c.next_version() == self.next_version()
                && c.baseline() is None),
            json_first_string_field(stdout@, "version"@) matches Some(t) ==> (r matches
                BaselineOutcome::Found(s) && s.released_tag() == t && s.next_version()
                == self.next_version() && s.default_features_only()
                == self.default_features_only()),
    {
        match get_version_from_cliff_output(stdout) {
            Ok(released_tag) => BaselineOutcome::Found(
                ResolveBaselineStep {
                    default_features_only: self.default_features_only,
                    version: self.version,
                    released_tag,
                },
            ),
            Err(_) => BaselineOutcome::NoPriorRelease(
                PrepareComplete { version: self.version, baseline: None },
            ),
        }
    }
}

/// The fifth step: the released tag is resolved to a commit identifier,
/// the compatibility comparison's baseline.
#[derive(Debug)]
pub struct ResolveBaselineStep {
    default_features_only: bool,
    version: String,
    released_tag: String,
}

impl ResolveBaselineStep {
    /// Whether the compatibility check is relaxed to default features.
    pub closed spec fn default_features_only(self) -> bool {
        self.default_features_only
    }

    /// The version the changelog tool resolved, marker included.
    pub closed spec fn next_version(self) -> Seq<char> {
        self.version@
    }

    /// The latest released tag, as the changelog tool reported it.
    pub closed spec fn released_tag(self) -> Seq<char> {
        self.released_tag@
    }

    /// The tag whose commit is wanted.
    pub fn tag(&self) -> (r: &String)
        ensures
            r@ == self.released_tag(),
    {
        &self.released_tag
    }

    /// The fully qualified reference name used to look the tag up.
    pub fn ref_name(&self) -> (r: String)
        ensures
            r@ == spec_tag_ref_name(self.released_tag()),
    {
        tag_ref_name(self.released_tag.as_str())
    }

    /// Consume the commit lookup's result. Here a missing commit is fatal:
    /// the tag was reported released, so failing to resolve it is a
    /// repository fault, not a missing baseline.
    pub fn finish(self, commit: Option<String>) -> (r: Result<CompatCheckStep, ReleaseError>)
        ensures
            r is Ok <==> commit is Some,
            r matches Ok(c) ==> {
                &&& c.wf()
                &&& Some(c.baseline_commit()) == commit.deep_view()
                &&& c.next_version() == self.next_version()
                &&& c.default_features_only() == self.default_features_only()
            },
            r matches Err(e) ==> e == ReleaseError::GitOperation,
    {
        match commit {
            Some(baseline) => {
                let args = semver_checks_args(baseline.as_str(), self.default_features_only);
                Ok(
                    CompatCheckStep {
                        default_features_only: self.default_features_only,
                        version: self.version,
                        baseline,
                        args,
                    },
                )
            },
            None => Err(ReleaseError::GitOperation),
        }
    }
}

/// The sixth step: the compatibility checker compares the working tree
/// against the baseline commit, across the whole workspace.
#[derive(Debug)]
pub struct CompatCheckStep {
    default_features_only: bool,
    version: String,
    baseline: String,
    args: Vec<String>,
}

impl CompatCheckStep {
    /// Whether the compatibility check is relaxed to default features.
    pub closed spec fn default_features_only(self) -> bool {
        self.default_features_only
    }

    /// The version the changelog tool resolved, marker included.
    pub closed spec fn next_version(self) -> Seq<char> {
        self.version@
    }

    /// The commit the working tree is compared against.
    pub closed spec fn baseline_commit(self) -> Seq<char> {
        self.baseline@
    }

    /// The step's argument list matches its inputs.
    pub closed spec fn wf(self) -> bool {
        self.args.deep_view() == spec_semver_checks_args(
            self.baseline@,
            self.default_features_only,
        )
    }

    /// The compatibility checker's arguments.
    pub fn args(&self) -> (r: &Vec<String>)
        requires
            self.wf(),
        ensures
            r.deep_view() == spec_semver_checks_args(
                self.baseline_commit(),
                self.default_features_only(),
            ),
    {
        &self.args
    }

    /// Consume the checker's outcome: an incompatibility report is a gate
    /// failure and aborts release preparation.
    pub fn finish(self, exit_ok: bool) -> (r: Result<PrepareComplete, ReleaseError>)
        ensures
            r is Ok <==> exit_ok,
            r matches Ok(c) ==> c.next_version() == self.next_version() && c.baseline() == Some(
                self.baseline_commit(),
            ),
            r matches Err(e) ==> e == ReleaseError::Gate,
    {
        if !exit_ok {
            return Err(ReleaseError::Gate);
        }
        Ok(PrepareComplete { version: self.version, baseline: Some(self.baseline) })
    }
}

/// Release preparation has completed successfully.
#[derive(Debug)]
pub struct PrepareComplete {
    version: String,
    baseline: Option<String>,
}

impl PrepareComplete {
    /// The version the changelog tool resolved, marker included.
    pub closed spec fn next_version(self) -> Seq<char> {
        self.version@
    }

    /// The baseline the working tree was compared against; absent on a
    /// first release.
    pub closed spec fn baseline(self) -> Option<Seq<char>> {
        match self.baseline {
            Option::None => Option::None,
            Option::Some(b) => Option::Some(b@),
        }
    }

    /// The resolved version, marker included.
    pub fn version(&self) -> (r: &String)
        ensures
            r@ == self.next_version(),
    {
        &self.version
    }

    /// The baseline commit the working tree was compared against, if any.
    pub fn baseline_commit(&self) -> (r: &Option<String>)
        ensures
            r is Some <==> self.baseline() is Some,
            r matches Some(b) ==> self.baseline() == Some(b@),
    {
        &self.baseline
    }
}

// ------------------------------------------------------------------
// Publishing: gate on releasability, then tag, push, publish, and
// create the forge release.
// ------------------------------------------------------------------
/// How publishing begins: with the releasability query, or — under the
/// testing-only danger flag — straight at the manifest.
#[derive(Debug)]
pub enum PublishStart {
    /// The forge must be asked whether HEAD is a releasable change.
    Check(ReleasabilityQuery),
    /// The check was explicitly bypassed.
    Skipped(ManifestStep),
}

/// Begin publishing. The releasability check runs unless the danger flag —
/// which exists solely for testing — bypasses it.
pub fn begin_publish(
    head_commit: String,
    skip_releasable_check: bool,
    skip_forge_release: bool,
) -> (r: PublishStart)
    ensures
        !skip_releasable_check ==> (r matches PublishStart::Check(q) && q.wf() && q.head()
            == head_commit@ && q.skip_forge_release() == skip_forge_release),
        skip_releasable_check ==> (r matches PublishStart::Skipped(m) && m.head() == head_commit@
            && m.skip_forge_release() == skip_forge_release),
{
    if skip_releasable_check {
        PublishStart::Skipped(ManifestStep { head: head_commit, skip_forge_release })
    } else {
        let args = pr_list_args(head_commit.as_str());
        PublishStart::Check(ReleasabilityQuery { head: head_commit, skip_forge_release, args })
    }
}

/// The releasability gate: the forge is asked for the merged change
/// requests matching HEAD.
#[derive(Debug)]
pub struct ReleasabilityQuery {
    head: String,
    skip_forge_release: bool,
    args: Vec<String>,
}

/// What the releasability gate decided.
#[derive(Debug)]
pub enum ReleasabilityOutcome {
    /// Not a releasable change: publishing stops here, successfully, with
    /// nothing mutated.
    NotReleasable,
    /// A single release-labeled change request matched; its number is
    /// surfaced and publishing proceeds.
    Releasable(u64, ManifestStep),
}

impl ReleasabilityQuery {
    /// The HEAD commit the query searches for.
    pub closed spec fn head(self) -> Seq<char> {
        self.head@
    }

    /// Whether the forge release entry is skipped at the end.
    pub closed spec fn skip_forge_release(self) -> bool {
        self.skip_forge_release
    }

    /// The step's argument list matches its inputs.
    pub closed spec fn wf(self) -> bool {
        self.args.deep_view() == spec_pr_list_args(self.head@)
    }

    /// The forge CLI's arguments for the merged-change-request query.
    pub fn args(&self) -> (r: &Vec<String>)
        requires
            self.wf(),
        ensures
            r.deep_view() == spec_pr_list_args(self.head()),
    {
        &self.args
    }

    /// Consume the forge's answer. Exactly one match carrying the release
    /// label is releasable; zero matches, ambiguity or a missing label
    /// stop publishing as a successful no-op.
    pub fn finish(self, stdout: &[u8]) -> (r: Result<ReleasabilityOutcome, ReleaseError>)
        ensures
            r is Err <==> spec_releasable_outcome(stdout@) is Err,
            r matches Err(e) ==> e == ReleaseError::Parse,
            spec_releasable_outcome(stdout@) matches Ok(d) ==> {
                &&& (d is None <==> r matches Ok(ReleasabilityOutcome::NotReleasable))
                &&& (d matches Some(n) ==> r matches Ok(ReleasabilityOutcome::Releasable(num, m))
                    && num == n && m.head() == self.head() && m.skip_forge_release()
                    == self.skip_forge_release())
            },
    {
        let decision = releasable_change_from_output(stdout)?;
        match decision {
            Some(pr_number) => Ok(
                ReleasabilityOutcome::Releasable(
                    pr_number,
                    ManifestStep { head: self.head, skip_forge_release: self.skip_forge_release },
                ),
            ),
            None => Ok(ReleasabilityOutcome::NotReleasable),
        }
    }
}

/// The version to publish is read from the root manifest.
#[derive(Debug)]
pub struct ManifestStep {
    head: String,
    skip_forge_release: bool,
}

impl ManifestStep {
    /// The HEAD commit being published.
    pub closed spec fn head(self) -> Seq<char> {
        self.head@
    }

    /// Whether the forge release entry is skipped at the end.
    pub closed spec fn skip_forge_release(self) -> bool {
        self.skip_forge_release
    }

    /// Consume the root manifest's content: the workspace's current version
    /// becomes the tag, behind the `v` marker.
    pub fn finish(self, manifest: &str) -> (r: Result<TagStep, ReleaseError>)
        ensures
            r is Ok <==> spec_manifest_version(manifest@) is Some,
            r matches Ok(t) ==> {
                &&& spec_manifest_version(manifest@) matches Some(ver) && t.tag() == "v"@ + ver
                &&& t.head() == self.head()
                &&& t.skip_forge_release() == self.skip_forge_release()
            },
            r matches Err(e) ==> e == ReleaseError::Parse,
    {
        let version = get_current_version_from_cargo_toml(manifest)?;
        let mut tag = String::from_str("v");
        tag.append(version.as_str());
        Ok(TagStep { head: self.head, skip_forge_release: self.skip_forge_release, tag })
    }
}

/// The idempotent tag step: HEAD is tagged with the current version.
#[derive(Debug)]
pub struct TagStep {
    head: String,
    skip_forge_release: bool,
    tag: String,
}

impl TagStep {
    /// The HEAD commit being published.
    pub closed spec fn head(self) -> Seq<char> {
        self.head@
    }

    /// Whether the forge release entry is skipped at the end.
    pub closed spec fn skip_forge_release(self) -> bool {
        self.skip_forge_release
    }

    /// The tag being applied, marker included.
    pub closed spec fn tag(self) -> Seq<char> {
        self.tag@
    }

    /// The tag's text, marker included.
    pub fn tag_name(&self) -> (r: &String)
        ensures
            r@ == self.tag(),
    {
        &self.tag
    }

    /// The fully qualified reference name used to look the tag up.
    pub fn ref_name(&self) -> (r: String)
        ensures
            r@ == spec_tag_ref_name(self.tag()),
    {
        tag_ref_name(self.tag.as_str())
    }

    /// Decide what to do about the tag, from the commit it currently points
    /// at (if it exists): an already-correct tag is left alone, a stale one
    /// is moved to HEAD, a missing one is created.
    pub fn action(&self, existing: Option<&String>) -> (a: TagAction)
        ensures
            a == spec_tag_action(opt_commit_view(existing), self.head()),
    {
        decide_tag_action(existing, &self.head)
    }

    /// The tag now stands at HEAD; move on to pushing it.
    pub fn finish(self) -> (r: PushStep)
        ensures
            r.tag() == self.tag(),
            r.skip_forge_release() == self.skip_forge_release(),
    {
        PushStep { skip_forge_release: self.skip_forge_release, tag: self.tag }
    }
}

/// The tag is pushed to the remote.
#[derive(Debug)]
pub struct PushStep {
    skip_forge_release: bool,
    tag: String,
}

impl PushStep {
    /// Whether the forge release entry is skipped at the end.
    pub closed spec fn skip_forge_release(self) -> bool {
        self.skip_forge_release
    }

    /// The tag being pushed, marker included.
    pub closed spec fn tag(self) -> Seq<char> {
        self.tag@
    }

    /// The tag's text, marker included.
    pub fn tag_name(&self) -> (r: &String)
        ensures
            r@ == self.tag(),
    {
        &self.tag
    }

    /// The refspec that pushes the tag to the same name on the remote.
    pub fn refspec(&self) -> (r: String)
        ensures
            r@ == spec_tag_push_refspec(self.tag()),
    {
        tag_push_refspec(self.tag.as_str())
    }

    /// The tag is on the remote; move on to publishing the packages.
    pub fn finish(self) -> (r: PublishCratesStep)
        ensures
            r.wf(),
            r.tag() == self.tag(),
            r.skip_forge_release() == self.skip_forge_release(),
    {
        let args = publish_args();
        PublishCratesStep { skip_forge_release: self.skip_forge_release, tag: self.tag, args }
    }
}

/// The workspace packages are published to the registry in dependency
/// order.
#[derive(Debug)]
pub struct PublishCratesStep {
    skip_forge_release: bool,
    tag: String,
    args: Vec<String>,
}

/// What follows a successful publish.
#[derive(Debug)]
pub enum AfterPublish {
    /// The forge release entry was explicitly skipped: publishing is done.
    Done(PublishComplete),
    /// A forge release entry is created for the new tag.
    CreateRelease(ForgeReleaseStep),
}

impl PublishCratesStep {
    /// Whether the forge release entry is skipped at the end.
    pub closed spec fn skip_forge_release(self) -> bool {
        self.skip_forge_release
    }

    /// The tag being published, marker included.
    pub closed spec fn tag(self) -> Seq<char> {
        self.tag@
    }

    /// The step's argument list matches its inputs.
    pub closed spec fn wf(self) -> bool {
        self.args.deep_view() == spec_publish_args()
    }

    /// The package manager's publish arguments. They always carry the
    /// publish-as-is flag, which is what makes re-publishing an
    /// already-published version a successful no-op.
    pub fn args(&self) -> (r: &Vec<String>)
        requires
            self.wf(),
        ensures
            r.deep_view() == spec_publish_args(),
    {
        &self.args
    }

    /// Consume the publish outcome. A failed tool invocation aborts the
    /// pipeline; success ends it, through the forge release entry unless
    /// that was skipped.
    pub fn finish(self, exit_ok: bool) -> (r: Result<AfterPublish, ReleaseError>)
        ensures
            r is Ok <==> exit_ok,
            r matches Ok(a) ==> {
                &&& (self.skip_forge_release() <==> a matches AfterPublish::Done(_))
                &&& (a matches AfterPublish::Done(c) ==> c.tag() == self.tag())
                &&& (a matches AfterPublish::CreateRelease(f) ==> f.tag() == self.tag())
            },
            r matches Err(e) ==> e == ReleaseError::ToolInvocation,
    {
        if !exit_ok {
            return Err(ReleaseError::ToolInvocation);
        }
        if self.skip_forge_release {
            Ok(AfterPublish::Done(PublishComplete { tag: self.tag }))
        } else {
            Ok(AfterPublish::CreateRelease(ForgeReleaseStep { tag: self.tag }))
        }
    }
}

/// A forge release entry is created for the new tag, with generated notes.
#[derive(Debug)]
pub struct ForgeReleaseStep {
    tag: String,
}

impl ForgeReleaseStep {
    /// The tag being released, marker included.
    pub closed spec fn tag(self) -> Seq<char> {
        self.tag@
    }

    /// The forge CLI's arguments, from the repository coordinates the forge
    /// publishes (`owner/name`): the entry is titled with the repository's
    /// own name and the bare version.
    pub fn args(&self, coordinates: &str) -> (r: Vec<String>)
        ensures
            r.deep_view() == spec_forge_release_args(
                spec_repo_name(coordinates@),
                strip_marker(self.tag()),
            ),
    {
        forge_release_args(coordinates, self.tag.as_str())
    }

    /// The entry was handed to the forge; publishing is done.
    pub fn finish(self) -> (r: PublishComplete)
        ensures
            r.tag() == self.tag(),
    {
        PublishComplete { tag: self.tag }
    }
}

/// Publishing has completed successfully.
#[derive(Debug)]
pub struct PublishComplete {
    tag: String,
}

impl PublishComplete {
    /// The tag that was published, marker included.
    pub closed spec fn tag(self) -> Seq<char> {
        self.tag@
    }

    /// The published tag's text, marker included.
    pub fn tag_name(&self) -> (r: &String)
        ensures
            r@ == self.tag(),
    {
        &self.tag
    }
}

} // verus!
