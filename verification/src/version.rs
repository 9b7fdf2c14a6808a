//! The version tag model: a semantic version string carried with its
//! leading `v` marker, validated before anything else runs.

use crate::ReleaseError;
use vstd::prelude::*;

verus! {

/// Whether a bare version text (no leading marker) follows semantic-version
/// grammar, exactly as `semver::Version::parse` judges it. The grammar is the
/// semver crate's; only this name is stated of it.
pub uninterp spec fn semver_valid(s: Seq<char>) -> bool;

/// Relies on `semver::Version::parse`: whether a text parses as a semantic
/// version depends on the text alone.
#[verifier::external_body]
fn semver_parse_ok(s: &str) -> (r: bool)
    ensures
        r == semver_valid(s@),
{
    semver::Version::parse(s).is_ok()
}

/// The text with one leading `v` marker removed, if it carries one.
pub open spec fn strip_marker(s: Seq<char>) -> Seq<char> {
    if s.len() > 0 && s[0] == 'v' {
        s.skip(1)
    } else {
        s
    }
}

/// The canonical serialized form of a version input: its bare version text
/// behind a single leading `v` marker.
pub open spec fn canonical_tag(s: Seq<char>) -> Seq<char> {
    seq!['v'] + strip_marker(s)
}

/// The fixed pre-release marker. Tag-pattern selection downstream goes by a
/// substring match on exactly this text, not by a general pre-release
/// grammar check; the policy is deliberate and must stay bit-for-bit.
pub open spec fn spec_dev_marker() -> Seq<char> {
    "-dev"@
}

/// Whether the text holds the fixed pre-release marker as a substring.
pub open spec fn has_dev_marker(s: Seq<char>) -> bool {
    exists|i: int| 0 <= i && i + 4 <= s.len() && #[trigger] s.subrange(i, i + 4) == spec_dev_marker()
}

/// A validated version tag: a semantic version serialized with its leading
/// `v` marker. Constructed only by [`VersionTag::parse`], immutable after.
#[derive(Debug)]
pub struct VersionTag {
    tag: String,
}

impl View for VersionTag {
    type V = Seq<char>;

    closed spec fn view(&self) -> Seq<char> {
        self.tag@
    }
}

impl VersionTag {
    /// The invariant every constructed tag carries: a `v` marker followed by
    /// a valid semantic version.
    pub open spec fn wf(self) -> bool {
        &&& self@.len() > 0
        &&& self@[0] == 'v'
        &&& semver_valid(self@.skip(1))
    }

    /// Parse a version input, with or without the leading marker. The bare
    /// remainder must follow semantic-version grammar; the result is always
    /// serialized with the marker re-attached canonically.
    pub fn parse(input: &str) -> (r: Result<VersionTag, ReleaseError>)
        ensures
            r is Ok <==> semver_valid(strip_marker(input@)),
            r matches Ok(t) ==> t@ == canonical_tag(input@) && t.wf(),
            r matches Err(e) ==> e == ReleaseError::VersionFormat,
    {
        proof {
            reveal_strlit("v");
        }
        let n = input.unicode_len();
        let bare: &str = if n > 0 && input.get_char(0) == 'v' {
            input.substring_char(1, n)
        } else {
            input
        };
        assert(bare@ =~= strip_marker(input@));
        if semver_parse_ok(bare) {
            let mut tag = String::from_str("v");
            tag.append(bare);
            proof {
                assert(tag@ =~= canonical_tag(input@));
                assert(canonical_tag(input@).skip(1) =~= strip_marker(input@));
            }
            Ok(VersionTag { tag })
        } else {
            Err(ReleaseError::VersionFormat)
        }
    }

    /// The serialized tag, marker included.
    pub fn as_str(&self) -> (r: &str)
        ensures
            r@ == self@,
    {
        self.tag.as_str()
    }

    /// The bare version text, with the leading marker removed.
    pub fn bare_version(&self) -> (r: &str)
        requires
            self.wf(),
        ensures
            r@ == self@.skip(1),
    {
        let n = self.tag.as_str().unicode_len();
        self.tag.as_str().substring_char(1, n)
    }

    /// Whether the tag is in pre-release form: it holds the fixed `-dev`
    /// marker as a substring. This is the exact policy that selects the
    /// tag-matching pattern downstream.
    pub fn is_prerelease(&self) -> (r: bool)
        ensures
            r == has_dev_marker(self@),
    {
        str_has_dev_marker(self.tag.as_str())
    }
}

/// Whether the text holds the fixed `-dev` marker as a substring.
pub fn str_has_dev_marker(s: &str) -> (r: bool)
    ensures
        r == has_dev_marker(s@),
{
    proof {
        reveal_strlit("-dev");
    }
    let n = s.unicode_len();
    if n < 4 {
        assert(!has_dev_marker(s@));
        return false;
    }
    let mut i: usize = 0;
    while i <= n - 4
        invariant
            n == s@.len(),
            4 <= n,
            0 <= i <= n,
            forall|j: int| 0 <= j < i ==> #[trigger] s@.subrange(j, j + 4) != spec_dev_marker(),
        decreases n - i,
    {
        proof {
            reveal_strlit("-dev");
        }
        if s.get_char(i) == '-' && s.get_char(i + 1) == 'd' && s.get_char(i + 2) == 'e'
            && s.get_char(i + 3) == 'v' {
            assert(s@.subrange(i as int, i as int + 4) =~= spec_dev_marker());
            return true;
        }
        proof {
            assert(s@.subrange(i as int, i as int + 4) != spec_dev_marker()) by {
                if s@.subrange(i as int, i as int + 4) == spec_dev_marker() {
                    assert(s@.subrange(i as int, i as int + 4)[0] == s@[i as int]);
                    assert(s@.subrange(i as int, i as int + 4)[1] == s@[i as int + 1]);
                    assert(s@.subrange(i as int, i as int + 4)[2] == s@[i as int + 2]);
                    assert(s@.subrange(i as int, i as int + 4)[3] == s@[i as int + 3]);
                }
            }
        }
        i = i + 1;
    }
    assert forall|j: int| 0 <= j && j + 4 <= s@.len() implies #[trigger] s@.subrange(j, j + 4)
        != spec_dev_marker() by {
        assert(j < i);
    }
    assert(!has_dev_marker(s@));
    false
}

/// Normalization of an optional user-supplied override, as a mathematical
/// function: absent and empty inputs mean "no override"; anything else must
/// parse as a version tag.
pub open spec fn spec_normalize_override(o: Option<Seq<char>>) -> Result<
    Option<Seq<char>>,
    ReleaseError,
> {
    match o {
        Option::None => Result::Ok(Option::None),
        Option::Some(s) => if s.len() == 0 {
            Result::Ok(Option::None)
        } else if semver_valid(strip_marker(s)) {
            Result::Ok(Option::Some(canonical_tag(s)))
        } else {
            Result::Err(ReleaseError::VersionFormat)
        },
    }
}

/// Normalize an optional version override. An empty string is treated
/// identically to no override; a non-empty string must parse as a semantic
/// version and comes back in canonical marker-prefixed form.
pub fn input_version_to_version_tag(force_version: Option<String>) -> (r: Result<
    Option<VersionTag>,
    ReleaseError,
>)
    ensures
        r is Ok <==> spec_normalize_override(force_version.deep_view()) is Ok,
        r matches Ok(o) ==> {
            let m = spec_normalize_override(force_version.deep_view())->Ok_0;
            &&& (o is Some <==> m is Some)
            &&& (o matches Some(t) ==> t@ == m->0 && t.wf())
        },
        r matches Err(e) ==> e == ReleaseError::VersionFormat,
{
    match force_version {
        Option::None => Ok(None),
        Option::Some(input) => {
            if input.as_str().unicode_len() == 0 {
                Ok(None)
            } else {
                let tag = VersionTag::parse(input.as_str())?;
                Ok(Some(tag))
            }
        },
    }
}

/// Law: an empty-string override resolves exactly as no override at all.
pub proof fn lemma_empty_override_like_none(s: Seq<char>)
    requires
        s.len() == 0,
    ensures
        spec_normalize_override(Option::Some(s)) == spec_normalize_override(
            Option::None::<Seq<char>>,
        ),
{
}

/// Law: parsing is canonicalizing. A tag parsed from any valid input (with
/// or without the marker) serializes to the canonical marker-prefixed form,
/// and feeding that form back to the parser succeeds and changes nothing.
pub proof fn lemma_parse_round_trip(s: Seq<char>)
    requires
        semver_valid(strip_marker(s)),
    ensures
        canonical_tag(s).len() > 0,
        canonical_tag(s)[0] == 'v',
        strip_marker(canonical_tag(s)) == strip_marker(s),
        semver_valid(strip_marker(canonical_tag(s))),
        canonical_tag(canonical_tag(s)) == canonical_tag(s),
{
    assert(canonical_tag(s).skip(1) =~= strip_marker(s));
    assert(canonical_tag(canonical_tag(s)) =~= canonical_tag(s));
}

} // verus!
