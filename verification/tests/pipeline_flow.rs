use release_util::{
    AfterPublish, BaselineOutcome, PublishStart, ReleasabilityOutcome, ReleaseError, TagAction,
    begin_prepare, begin_publish,
};

#[test]
fn prepare_first_release_skips_the_gate() {
    // Starting from 0.1.0 with a chore commit, the changelog tool resolves
    // v0.1.1; no released tag exists yet, so preparation completes with no
    // baseline compared.
    let m = begin_prepare("cliff.toml".to_string(), None, false, false).unwrap();
    assert_eq!(m.args()[1].as_str(), "--config");
    let q = m.finish(true).unwrap();
    let s = q.finish(br#"[{"version": "v0.1.1"}]"#).unwrap();
    assert_eq!(s.version().as_str(), "v0.1.1");
    assert_eq!(s.args()[5].as_str(), "0.1.1");
    let b = s.finish(true).unwrap();
    match b.finish(b"") {
        BaselineOutcome::NoPriorRelease(done) => {
            assert_eq!(done.version().as_str(), "v0.1.1");
            assert!(done.baseline_commit().is_none());
        },
        BaselineOutcome::Found(_) => panic!("no baseline should exist"),
    }
}

#[test]
fn prepare_with_baseline_runs_the_gate() {
    let m = begin_prepare("cliff.toml".to_string(), None, false, false).unwrap();
    let q = m.finish(true).unwrap();
    let s = q.finish(br#"[{"version": "v0.1.2"}]"#).unwrap();
    let b = s.finish(true).unwrap();
    let resolve = match b.finish(br#"[{"version": "v0.1.1"}]"#) {
        BaselineOutcome::Found(r) => r,
        BaselineOutcome::NoPriorRelease(_) => panic!("a released tag was reported"),
    };
    assert_eq!(resolve.tag().as_str(), "v0.1.1");
    let check = resolve.finish(Some("c0ffee".to_string())).unwrap();
    assert_eq!(check.args()[3].as_str(), "c0ffee");
    // An incompatible change is reported as a gate failure.
    let failed = check.finish(false);
    assert_eq!(failed.unwrap_err(), ReleaseError::Gate);
}

#[test]
fn prepare_gate_passes_after_a_version_bump() {
    // The same incompatible diff passes once the version was forced higher:
    // the compatibility verdict is the checker's, and a passing exit
    // completes preparation with the baseline recorded.
    let m = begin_prepare(
        "cliff.toml".to_string(),
        Some("v0.2.0".to_string()),
        true,
        false,
    )
    .unwrap();
    let q = m.finish(true).unwrap();
    let s = q.finish(br#"[{"version": "v0.2.0"}]"#).unwrap();
    let b = s.finish(true).unwrap();
    let resolve = match b.finish(br#"[{"version": "v0.1.2"}]"#) {
        BaselineOutcome::Found(r) => r,
        BaselineOutcome::NoPriorRelease(_) => panic!("a released tag was reported"),
    };
    let check = resolve.finish(Some("c0ffee".to_string())).unwrap();
    let done = check.finish(true).unwrap();
    assert_eq!(done.version().as_str(), "v0.2.0");
    assert_eq!(done.baseline_commit().as_deref(), Some("c0ffee"));
}

#[test]
fn prepare_resolves_the_same_version_twice() {
    // With no new commits and no override, the changelog tool reports the
    // same answer both times; the resolver propagates it unchanged, so two
    // runs in a row agree.
    let output = br#"[{"version": "v0.5.0"}]"#;
    let mut versions: Vec<String> = Vec::new();
    for _ in 0..2 {
        let m = begin_prepare("cliff.toml".to_string(), None, true, false).unwrap();
        let q = m.finish(true).unwrap();
        let s = q.finish(output).unwrap();
        versions.push(s.version().clone());
    }
    assert_eq!(versions[0], versions[1]);
    assert_eq!(versions[0].as_str(), "v0.5.0");
}

#[test]
fn prepare_rejects_a_malformed_override_before_anything_runs() {
    let r = begin_prepare(
        "cliff.toml".to_string(),
        Some("bogus".to_string()),
        false,
        false,
    );
    assert_eq!(r.unwrap_err(), ReleaseError::VersionFormat);
}

#[test]
fn prepare_empty_override_behaves_like_none() {
    let with_empty =
        begin_prepare("cliff.toml".to_string(), Some(String::new()), false, false).unwrap();
    let with_none = begin_prepare("cliff.toml".to_string(), None, false, false).unwrap();
    let a: Vec<&str> = with_empty.args().iter().map(|s| s.as_str()).collect();
    let b: Vec<&str> = with_none.args().iter().map(|s| s.as_str()).collect();
    assert_eq!(a, b);
}

#[test]
fn prepare_tool_failures_abort() {
    let m = begin_prepare("cliff.toml".to_string(), None, false, false).unwrap();
    assert_eq!(m.finish(false).unwrap_err(), ReleaseError::ToolInvocation);

    let m = begin_prepare("cliff.toml".to_string(), None, false, false).unwrap();
    let q = m.finish(true).unwrap();
    assert_eq!(q.finish(b"garbage").unwrap_err(), ReleaseError::Parse);

    let m = begin_prepare("cliff.toml".to_string(), None, false, false).unwrap();
    let q = m.finish(true).unwrap();
    let s = q.finish(br#"[{"version": "v0.1.1"}]"#).unwrap();
    assert_eq!(s.finish(false).unwrap_err(), ReleaseError::ToolInvocation);
}

#[test]
fn prepare_missing_baseline_commit_is_a_git_failure() {
    let m = begin_prepare("cliff.toml".to_string(), None, false, false).unwrap();
    let q = m.finish(true).unwrap();
    let s = q.finish(br#"[{"version": "v0.1.2"}]"#).unwrap();
    let b = s.finish(true).unwrap();
    let resolve = match b.finish(br#"[{"version": "v0.1.1"}]"#) {
        BaselineOutcome::Found(r) => r,
        BaselineOutcome::NoPriorRelease(_) => panic!("a released tag was reported"),
    };
    assert_eq!(resolve.finish(None).unwrap_err(), ReleaseError::GitOperation);
}

#[test]
fn publish_stops_quietly_when_not_releasable() {
    let start = begin_publish("deadbeef".to_string(), false, false);
    let query = match start {
        PublishStart::Check(q) => q,
        PublishStart::Skipped(_) => panic!("check was not skipped"),
    };
    assert_eq!(query.args()[3].as_str(), "deadbeef");
    match query.finish(b"[]").unwrap() {
        ReleasabilityOutcome::NotReleasable => {},
        ReleasabilityOutcome::Releasable(..) => panic!("nothing matched"),
    }
}

#[test]
fn publish_full_run_over_a_releasable_change() {
    let start = begin_publish("deadbeef".to_string(), false, false);
    let query = match start {
        PublishStart::Check(q) => q,
        PublishStart::Skipped(_) => panic!("check was not skipped"),
    };
    let pr = br#"[{"id": "x", "number": 42, "labels": [{"name": "hra-release"}]}]"#;
    let (number, manifest_step) = match query.finish(pr).unwrap() {
        ReleasabilityOutcome::Releasable(n, m) => (n, m),
        ReleasabilityOutcome::NotReleasable => panic!("the change is releasable"),
    };
    assert_eq!(number, 42);

    let tag_step = manifest_step
        .finish("[package]\nname = \"demo\"\nversion = \"1.2.3\"\n")
        .unwrap();
    assert_eq!(tag_step.tag_name().as_str(), "v1.2.3");
    assert_eq!(tag_step.ref_name().as_str(), "refs/tags/v1.2.3");

    // The idempotent tag decision: already at HEAD is a no-op, elsewhere a
    // forced move, missing a creation.
    assert_eq!(
        tag_step.action(Some(&"deadbeef".to_string())),
        TagAction::AlreadyTagged
    );
    assert_eq!(
        tag_step.action(Some(&"0ther".to_string())),
        TagAction::ForceUpdate
    );
    assert_eq!(tag_step.action(None), TagAction::Create);

    let push_step = tag_step.finish();
    assert_eq!(
        push_step.refspec().as_str(),
        "refs/tags/v1.2.3:refs/tags/v1.2.3"
    );

    let publish_step = push_step.finish();
    // The publish arguments always carry --publish-as-is: re-publishing an
    // already-published version succeeds as a no-op.
    assert!(publish_step.args().iter().any(|a| a.as_str() == "--publish-as-is"));

    let forge = match publish_step.finish(true).unwrap() {
        AfterPublish::CreateRelease(f) => f,
        AfterPublish::Done(_) => panic!("the forge release was not skipped"),
    };
    let args = forge.args("holochain/demo-repo");
    assert_eq!(args[4].as_str(), "demo-repo 1.2.3");
    let done = forge.finish();
    assert_eq!(done.tag_name().as_str(), "v1.2.3");
}

#[test]
fn publish_danger_flags_bypass_the_outer_steps() {
    let start = begin_publish("deadbeef".to_string(), true, true);
    let manifest_step = match start {
        PublishStart::Skipped(m) => m,
        PublishStart::Check(_) => panic!("check should be skipped"),
    };
    let tag_step = manifest_step
        .finish("[package]\nname = \"demo\"\nversion = \"0.0.9\"\n")
        .unwrap();
    let publish_step = tag_step.finish().finish();
    match publish_step.finish(true).unwrap() {
        AfterPublish::Done(c) => assert_eq!(c.tag_name().as_str(), "v0.0.9"),
        AfterPublish::CreateRelease(_) => panic!("the forge release was skipped"),
    }
}

#[test]
fn publish_failures_propagate() {
    let start = begin_publish("deadbeef".to_string(), false, false);
    let query = match start {
        PublishStart::Check(q) => q,
        PublishStart::Skipped(_) => panic!("check was not skipped"),
    };
    assert_eq!(query.finish(b"garbage").unwrap_err(), ReleaseError::Parse);

    let start = begin_publish("deadbeef".to_string(), true, false);
    let manifest_step = match start {
        PublishStart::Skipped(m) => m,
        PublishStart::Check(_) => panic!("check should be skipped"),
    };
    assert_eq!(
        manifest_step.finish("not toml at all [").unwrap_err(),
        ReleaseError::Parse
    );

    let start = begin_publish("deadbeef".to_string(), true, false);
    let manifest_step = match start {
        PublishStart::Skipped(m) => m,
        PublishStart::Check(_) => panic!("check should be skipped"),
    };
    let publish_step = manifest_step
        .finish("[package]\nname = \"demo\"\nversion = \"0.0.9\"\n")
        .unwrap()
        .finish()
        .finish();
    assert_eq!(
        publish_step.finish(false).unwrap_err(),
        ReleaseError::ToolInvocation
    );
}
