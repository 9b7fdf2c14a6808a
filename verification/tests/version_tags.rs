use release_util::{ReleaseError, VersionTag, input_version_to_version_tag, str_has_dev_marker};

#[test]
fn convert_input_version_to_version_tag() {
    // Maps no input to None
    assert!(matches!(input_version_to_version_tag(None), Ok(None)));

    // Valid version with 'v' prefix remains unchanged
    let tag = input_version_to_version_tag(Some("v1.2.3".to_string()))
        .unwrap()
        .unwrap();
    assert_eq!(tag.as_str(), "v1.2.3");

    // Valid version gets prefixed with 'v'
    let tag = input_version_to_version_tag(Some("1.2.3".to_string()))
        .unwrap()
        .unwrap();
    assert_eq!(tag.as_str(), "v1.2.3");

    // Invalid semver is rejected
    assert!(input_version_to_version_tag(Some("invalid".to_string())).is_err());
    // Invalid semver with a 'v' prefix is rejected
    assert!(input_version_to_version_tag(Some("vinvalid".to_string())).is_err());
}

#[test]
fn empty_override_counts_as_absent() {
    assert!(matches!(input_version_to_version_tag(Some(String::new())), Ok(None)));
    assert!(matches!(input_version_to_version_tag(None), Ok(None)));
}

#[test]
fn parse_canonicalizes_and_round_trips() {
    for input in ["1.2.3", "v1.2.3"] {
        let tag = VersionTag::parse(input).unwrap();
        assert_eq!(tag.as_str(), "v1.2.3");
        // Feeding the canonical form back in changes nothing.
        let again = VersionTag::parse(tag.as_str()).unwrap();
        assert_eq!(again.as_str(), "v1.2.3");
    }
    let pre = VersionTag::parse("0.2.0-dev.1").unwrap();
    assert_eq!(pre.as_str(), "v0.2.0-dev.1");
    assert_eq!(pre.bare_version(), "0.2.0-dev.1");
}

#[test]
fn parse_rejects_malformed_versions() {
    for input in ["invalid", "vinvalid", "", "v", "1.2", "1.2.3.4", "v1.0.0-"] {
        assert_eq!(VersionTag::parse(input).unwrap_err(), ReleaseError::VersionFormat);
    }
}

#[test]
fn version_format_error_reported_for_bad_override() {
    assert_eq!(
        input_version_to_version_tag(Some("not-a-version".to_string())).unwrap_err(),
        ReleaseError::VersionFormat
    );
}

#[test]
fn prerelease_goes_by_the_fixed_dev_marker() {
    assert!(VersionTag::parse("v0.2.0-dev.0").unwrap().is_prerelease());
    assert!(!VersionTag::parse("v0.2.0").unwrap().is_prerelease());
    // The policy is a substring match on "-dev", not a general
    // pre-release grammar check.
    assert!(!VersionTag::parse("1.0.0-alpha.1").unwrap().is_prerelease());
    assert!(str_has_dev_marker("v9.9.9-dev"));
    assert!(!str_has_dev_marker("dev"));
    assert!(!str_has_dev_marker(""));
    assert!(!str_has_dev_marker("-de"));
}
