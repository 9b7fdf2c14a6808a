//! The releasability gate: whether the current HEAD commit came from a
//! merged, release-labeled change request on the forge.
//!
//! The forge's CLI is asked for the merged change requests matching HEAD;
//! its JSON answer is read here and the decision rule is verified: exactly
//! one match carrying the release label is releasable, everything else —
//! zero matches, ambiguity, or a missing label — is a deliberate no-op.

use crate::json::{
    json_array_len, json_first_array_field_len, json_first_array_string_at,
    json_first_string_field, json_first_u64_field, parse_json_array_len,
    parse_json_first_array_field_len, parse_json_first_array_string_at,
    parse_json_first_u64_field,
};
use crate::{ReleaseError, release_label, spec_release_label};
use vstd::prelude::*;

verus! {

/// Whether any of the label names is the release label.
pub open spec fn spec_labels_match(labels: Seq<Seq<char>>) -> bool {
    exists|i: int| 0 <= i < labels.len() && #[trigger] labels[i] == spec_release_label()
}

/// The releasability decision rule on plain values: releasable exactly when the
/// forge reported a single matching change request and its label set holds
/// the release label; the surfaced value is that change request's number.
pub fn decide_releasable(match_count: usize, pr_number: u64, labels: &Vec<String>) -> (r: Option<
    u64,
>)
    ensures
        r is Some <==> match_count == 1 && spec_labels_match(labels.deep_view()),
        r matches Some(n) ==> n == pr_number,
{
    if match_count != 1 {
        return None;
    }
    let target = String::from_str(release_label());
    let mut i: usize = 0;
    while i < labels.len()
        invariant
            match_count == 1,
            target@ == spec_release_label(),
            0 <= i <= labels@.len(),
            forall|j: int| 0 <= j < i ==> #[trigger] labels.deep_view()[j] != spec_release_label(),
        decreases labels@.len() - i,
    {
        if labels[i].eq(&target) {
            assert(labels.deep_view()[i as int] == spec_release_label());
            assert(spec_labels_match(labels.deep_view()));
            return Some(pr_number);
        }
        assert(labels.deep_view()[i as int] != spec_release_label());
        i = i + 1;
    }
    assert(!spec_labels_match(labels.deep_view()));
    None
}

/// The whole gate outcome as a function of the forge CLI's raw answer:
/// a parse failure when the answer is not a JSON array, when the single
/// match lacks a number, a label array, or a label name; not releasable
/// when the match count is anything but one, or the label is absent;
/// releasable, with the change request's number, otherwise.
pub open spec fn spec_releasable_outcome(bytes: Seq<u8>) -> Result<Option<u64>, ReleaseError> {
    match json_array_len(bytes) {
        Option::None => Result::Err(ReleaseError::Parse),
        Option::Some(n) => if n != 1 {
            Result::Ok(Option::None)
        } else {
            match (
                json_first_u64_field(bytes, "number"@),
                json_first_array_field_len(bytes, "labels"@),
            ) {
                (Option::Some(num), Option::Some(k)) => if exists|i: int|
                    0 <= i < k && #[trigger] json_first_array_string_at(
                        bytes,
                        "labels"@,
                        i,
                        "name"@,
                    ) is None {
                    Result::Err(ReleaseError::Parse)
                } else if exists|i: int|
                    0 <= i < k && #[trigger] json_first_array_string_at(bytes, "labels"@, i, "name"@)
                        == Option::Some(spec_release_label()) {
                    Result::Ok(Option::Some(num))
                } else {
                    Result::Ok(Option::None)
                },
                _ => Result::Err(ReleaseError::Parse),
            }
        },
    }
}

/// Decide releasability from the forge CLI's raw answer to the merged
/// change-request query for HEAD. `Ok(Some(n))` is the releasable change
/// request's number; `Ok(None)` is the deliberate "not releasable" no-op.
pub fn releasable_change_from_output(output: &[u8]) -> (r: Result<Option<u64>, ReleaseError>)
    ensures
        r == spec_releasable_outcome(output@),
{
    let count = match parse_json_array_len(output) {
        Some(c) => c,
        None => {
            return Err(ReleaseError::Parse);
        },
    };
    if count != 1 {
        return Ok(None);
    }
    let number = match parse_json_first_u64_field(output, "number") {
        Some(n) => n,
        None => {
            return Err(ReleaseError::Parse);
        },
    };
    let labels_len = match parse_json_first_array_field_len(output, "labels") {
        Some(k) => k,
        None => {
            return Err(ReleaseError::Parse);
        },
    };
    let mut names: Vec<String> = Vec::new();
    let mut i: usize = 0;
    while i < labels_len
        invariant
            count == 1,
            json_array_len(output@) == Some(1int),
            json_first_u64_field(output@, "number"@) == Some(number),
            json_first_array_field_len(output@, "labels"@) == Some(labels_len as int),
            0 <= i <= labels_len,
            names@.len() == i,
            forall|j: int|
                0 <= j < i ==> #[trigger] json_first_array_string_at(output@, "labels"@, j, "name"@)
                    == Option::Some(names.deep_view()[j]),
        decreases labels_len - i,
    {
        match parse_json_first_array_string_at(output, "labels", i, "name") {
            Some(name) => {
                names.push(name);
            },
            None => {
                return Err(ReleaseError::Parse);
            },
        }
        i = i + 1;
    }
    assert(forall|j: int|
        0 <= j < labels_len ==> #[trigger] json_first_array_string_at(
            output@,
            "labels"@,
            j,
            "name"@,
        ) is Some);
    let decision = decide_releasable(count, number, &names);
    proof {
        if spec_labels_match(names.deep_view()) {
            let w = choose|i: int|
                0 <= i < names.deep_view().len() && #[trigger] names.deep_view()[i]
                    == spec_release_label();
            assert(json_first_array_string_at(output@, "labels"@, w, "name"@) == Option::Some(
                spec_release_label(),
            ));
        }
        if exists|i: int|
            0 <= i < labels_len && #[trigger] json_first_array_string_at(
                output@,
                "labels"@,
                i,
                "name"@,
            ) == Option::Some(spec_release_label()) {
            let w = choose|i: int|
                0 <= i < labels_len && #[trigger] json_first_array_string_at(
                    output@,
                    "labels"@,
                    i,
                    "name"@,
                ) == Option::Some(spec_release_label());
            assert(names.deep_view()[w] == spec_release_label());
            assert(spec_labels_match(names.deep_view()));
        }
    }
    match decision {
        Some(n) => Ok(Some(n)),
        None => Ok(None),
    }
}

} // verus!
