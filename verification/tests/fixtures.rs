use release_util::{CargoWorkspaceModel, ChangelogConfig, CrateModel, ReleaseError};

#[test]
fn crate_model_starts_as_a_bare_binary() {
    let model = CrateModel::new("demo", "0.1.0");
    assert_eq!(model.name.as_str(), "demo");
    assert_eq!(model.version.as_str(), "0.1.0");
    assert!(model.binary);
    assert!(model.description.is_none());
    assert!(model.repository.is_none());
    assert!(model.license.is_none());
    assert!(model.content.is_none());
}

#[test]
fn crate_model_builders_set_their_fields() {
    let model = CrateModel::new("demo", "0.1.0")
        .make_lib()
        .with_description("A demo crate")
        .with_repository("https://example.com/demo")
        .with_license("Apache-2.0")
        .with_content("pub fn add(a: i32, b: i32) -> i32 { a + b }");
    assert!(!model.binary);
    assert_eq!(model.description.as_deref(), Some("A demo crate"));
    assert_eq!(model.repository.as_deref(), Some("https://example.com/demo"));
    assert_eq!(model.license.as_deref(), Some("Apache-2.0"));
    assert_eq!(
        model.content.as_deref(),
        Some("pub fn add(a: i32, b: i32) -> i32 { a + b }")
    );
}

#[test]
fn workspace_model_collects_crates_in_order() {
    let lib = CrateModel::new("demo_lib", "0.1.0").make_lib();
    let bin = CrateModel::new("demo_bin", "0.1.0");
    let _workspace = CargoWorkspaceModel::new()
        .add_crate(lib, &[])
        .add_crate(bin, &["demo_lib"]);
}

#[test]
fn workspace_model_default_is_empty() {
    let lib = CrateModel::new("solo", "0.1.0").make_lib();
    let _workspace = CargoWorkspaceModel::default().add_crate(lib, &[]);
}

#[test]
fn changelog_config_is_comparable() {
    assert_eq!(ChangelogConfig::Pre1Point0Cliff, ChangelogConfig::Pre1Point0Cliff);
}

#[test]
fn error_descriptions_name_each_failure() {
    assert_eq!(ReleaseError::VersionFormat.describe(), "invalid version format");
    assert_eq!(ReleaseError::ToolInvocation.describe(), "an external tool failed");
    assert_eq!(ReleaseError::Parse.describe(), "unexpected tool output");
    assert_eq!(ReleaseError::Gate.describe(), "compatibility check failed");
    assert_eq!(ReleaseError::GitOperation.describe(), "repository operation failed");
}
