use release_util::{
    VersionTag, changelog_write_args, forge_release_args, get_current_version_from_cargo_toml,
    get_version_from_cliff_output, latest_query_args, next_version_query_args, pr_list_args,
    publish_args, repo_name_of, semver_checks_args, set_version_args, tag_push_refspec,
    tag_ref_name, ReleaseError,
};

fn strs(args: &[String]) -> Vec<&str> {
    args.iter().map(|s| s.as_str()).collect()
}

#[test]
fn changelog_args_with_path_config_and_no_force() {
    let args = changelog_write_args("cliff.toml", &None, false);
    assert_eq!(
        strs(&args),
        vec![
            "--use-branch-tags",
            "--config",
            "cliff.toml",
            "--tag-pattern",
            "^v\\d+.\\d+.\\d+",
            "--unreleased",
            "--output",
            "--bump",
        ]
    );
}

#[test]
fn changelog_args_with_url_config_and_release_force() {
    let force = Some(VersionTag::parse("v0.2.0").unwrap());
    let args = changelog_write_args("https://example.com/cliff.toml", &force, true);
    assert_eq!(
        strs(&args),
        vec![
            "--use-branch-tags",
            "--config-url",
            "https://example.com/cliff.toml",
            "--tag-pattern",
            "^v\\d+.\\d+.\\d+$",
            "--unreleased",
            "--prepend",
            "CHANGELOG.md",
            "--tag",
            "v0.2.0",
        ]
    );
}

#[test]
fn prerelease_force_relaxes_the_tag_pattern() {
    let force = Some(VersionTag::parse("v0.2.0-dev.0").unwrap());
    let args = next_version_query_args("cliff.toml", &force);
    assert_eq!(
        strs(&args),
        vec![
            "--use-branch-tags",
            "--config",
            "cliff.toml",
            "--tag-pattern",
            "^v\\d+.\\d+.\\d+",
            "--unreleased",
            "--bump",
            "--context",
            "--tag",
            "v0.2.0-dev.0",
        ]
    );
}

#[test]
fn latest_query_ignores_unreleased_history() {
    let args = latest_query_args("cliff.toml", &None);
    assert_eq!(
        strs(&args),
        vec![
            "--use-branch-tags",
            "--config",
            "cliff.toml",
            "--tag-pattern",
            "^v\\d+.\\d+.\\d+",
            "--latest",
            "--context",
        ]
    );
}

#[test]
fn set_version_strips_the_marker() {
    let args = set_version_args("v0.1.1");
    assert_eq!(
        strs(&args),
        vec![
            "workspaces",
            "version",
            "--no-git-commit",
            "--yes",
            "custom",
            "0.1.1",
            "--force",
            "*",
        ]
    );
    let bare = set_version_args("0.1.1");
    assert_eq!(strs(&bare)[5], "0.1.1");
}

#[test]
fn semver_checks_args_cover_both_modes() {
    let strict = semver_checks_args("abc123", false);
    assert_eq!(
        strs(&strict),
        vec!["semver-checks", "--workspace", "--baseline-rev", "abc123"]
    );
    let relaxed = semver_checks_args("abc123", true);
    assert_eq!(
        strs(&relaxed),
        vec![
            "semver-checks",
            "--workspace",
            "--baseline-rev",
            "abc123",
            "--default-features",
        ]
    );
}

#[test]
fn publish_args_republish_as_a_no_op() {
    let args = publish_args();
    assert_eq!(
        strs(&args),
        vec![
            "workspaces",
            "publish",
            "--allow-branch",
            "(main|release)*",
            "--publish-as-is",
        ]
    );
}

#[test]
fn pr_list_args_search_for_head() {
    let args = pr_list_args("deadbeef");
    assert_eq!(
        strs(&args),
        vec![
            "pr",
            "list",
            "--search",
            "deadbeef",
            "--state",
            "merged",
            "--json",
            "id,number,labels",
        ]
    );
}

#[test]
fn forge_release_title_holds_repo_and_bare_version() {
    let args = forge_release_args("holochain/some-repo", "v1.2.3");
    assert_eq!(
        strs(&args),
        vec![
            "release",
            "create",
            "--generate-notes",
            "--title",
            "some-repo 1.2.3",
        ]
    );
}

#[test]
fn repo_name_is_the_last_segment() {
    assert_eq!(repo_name_of("owner/repo").as_str(), "repo");
    assert_eq!(repo_name_of("repo").as_str(), "repo");
    assert_eq!(repo_name_of("a/b/c").as_str(), "c");
    assert_eq!(repo_name_of("owner/").as_str(), "");
    assert_eq!(repo_name_of("").as_str(), "");
}

#[test]
fn tag_reference_names() {
    assert_eq!(tag_ref_name("v1.0.0").as_str(), "refs/tags/v1.0.0");
    assert_eq!(
        tag_push_refspec("v1.0.0").as_str(),
        "refs/tags/v1.0.0:refs/tags/v1.0.0"
    );
}

#[test]
fn cliff_output_version_extraction() {
    let output = br#"[{"version": "v0.1.1", "commits": []}, {"version": "v0.1.0"}]"#;
    assert_eq!(get_version_from_cliff_output(output).unwrap().as_str(), "v0.1.1");
    assert_eq!(
        get_version_from_cliff_output(b"[]").unwrap_err(),
        ReleaseError::Parse
    );
    assert_eq!(
        get_version_from_cliff_output(b"{}").unwrap_err(),
        ReleaseError::Parse
    );
    assert_eq!(
        get_version_from_cliff_output(br#"[{"version": 3}]"#).unwrap_err(),
        ReleaseError::Parse
    );
    assert_eq!(
        get_version_from_cliff_output(b"garbage").unwrap_err(),
        ReleaseError::Parse
    );
}

#[test]
fn manifest_version_single_package() {
    let manifest = "[package]\nname = \"demo\"\nversion = \"0.3.7\"\n";
    assert_eq!(
        get_current_version_from_cargo_toml(manifest).unwrap().as_str(),
        "0.3.7"
    );
}

#[test]
fn manifest_version_workspace() {
    let manifest = "[workspace]\nmembers = [\"crates/a\"]\n\n[workspace.package]\nversion = \"1.4.0\"\n";
    assert_eq!(
        get_current_version_from_cargo_toml(manifest).unwrap().as_str(),
        "1.4.0"
    );
}

#[test]
fn manifest_version_failures() {
    // Not TOML at all.
    assert_eq!(
        get_current_version_from_cargo_toml("= nonsense =").unwrap_err(),
        ReleaseError::Parse
    );
    // A workspace without a package table.
    assert_eq!(
        get_current_version_from_cargo_toml("[workspace]\nmembers = []\n").unwrap_err(),
        ReleaseError::Parse
    );
    // A package without a version.
    assert_eq!(
        get_current_version_from_cargo_toml("[package]\nname = \"demo\"\n").unwrap_err(),
        ReleaseError::Parse
    );
    // A version that is not a string.
    assert_eq!(
        get_current_version_from_cargo_toml("[package]\nversion = 3\n").unwrap_err(),
        ReleaseError::Parse
    );
}
