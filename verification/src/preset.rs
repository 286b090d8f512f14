//! Finding an option by its display label, whatever the case of the letters.
//!
//! A request matches a label when the two are the same text once both are
//! in lowercase. The whole label counts: a request that is only the start of
//! a label does not match it.

use crate::resolver::position;
use crate::setting::{Command, CommandView, Setting, SettingId, SettingView, Value, ValueView};
use vstd::prelude::*;

verus! {

/// The lowercase form of a text, as the standard library computes it: by the
/// Unicode case mappings, which lengthen some texts and depend on nothing but
/// the text.
pub uninterp spec fn lowercase(text: Seq<char>) -> Seq<char>;

/// `str::to_lowercase`. The contract gives the result its name and claims
/// nothing else about it.
#[verifier::external_body]
fn to_lowercase(text: &str) -> (lowered: String)
    ensures
        lowered@ == lowercase(text@),
{
    text.to_lowercase()
}

/// Two texts match when their lowercase forms are the same text.
pub open spec fn labels_match(label: Seq<char>, request: Seq<char>) -> bool {
    lowercase(label) == lowercase(request)
}

/// Each label in lowercase, in the same order.
pub open spec fn lowered(labels: Seq<Seq<char>>) -> Seq<Seq<char>> {
    Seq::new(labels.len(), |i: int| lowercase(labels[i]))
}

/// The index of the first label that matches `request`.
pub open spec fn preset_index(labels: Seq<Seq<char>>, request: Seq<char>) -> Option<int> {
    lowered(labels).index_of_first(lowercase(request))
}

/// The write that selecting by label stands for: the wire token of the first
/// option whose label matches, for a setting that reads as a selection;
/// nothing when no label matches or the reading is of another kind.
pub open spec fn preset_outcome(
    id: SettingId,
    request: Seq<char>,
    reading: Option<SettingView>,
) -> Option<CommandView> {
    match reading {
        Some(SettingView::Select { options, localized_options, .. }) => match preset_index(
            localized_options,
            request,
        ) {
            Some(index) => Some(CommandView { id, value: ValueView::Token(options[index]) }),
            None => None,
        },
        _ => None,
    }
}

/// Whether `label` and `request` are the same text but for the case of
/// their letters.
pub fn same_label(label: &str, request: &str) -> (same: bool)
    ensures
        same == labels_match(label@, request@),
{
    let left = to_lowercase(label);
    let right = to_lowercase(request);
    left == right
}

/// The labels in lowercase.
fn lower_all(labels: &Vec<String>) -> (out: Vec<String>)
    ensures
        out.deep_view() == lowered(labels.deep_view()),
{
    let ghost texts = labels.deep_view();
    let mut out: Vec<String> = Vec::new();
    let mut index: usize = 0;
    while index < labels.len()
        invariant
            index <= labels.len(),
            texts == labels.deep_view(),
            out.len() == index,
            forall|j: int| 0 <= j < index ==> (#[trigger] out@[j])@ == lowercase(texts[j]),
        decreases labels.len() - index,
    {
        let lowered_label = to_lowercase(labels[index].as_str());
        out.push(lowered_label);
        index += 1;
    }
    assert(out.deep_view() =~= lowered(texts));
    out
}

/// The index of the first label that matches `request`, if any does.
pub fn match_preset(labels: &Vec<String>, request: &str) -> (found: Option<usize>)
    ensures
        (match found {
            Some(index) => {
                &&& preset_index(labels.deep_view(), request@) == Some(index as int)
                &&& index < labels.len()
                &&& labels_match(labels[index as int]@, request@)
                &&& forall|j: int| 0 <= j < index ==> !labels_match(labels[j]@, request@)
            },
            None => {
                &&& preset_index(labels.deep_view(), request@) is None
                &&& forall|j: int| 0 <= j < labels.len() ==> !labels_match(labels[j]@, request@)
            },
        }),
{
    let candidates = lower_all(labels);
    let wanted = to_lowercase(request);
    let found = position(&candidates, &wanted);
    proof {
        let texts = labels.deep_view();
        preset_index_is_first_match(texts, request@);
        let end: int = match found {
            Some(index) => index as int,
            None => labels.len() as int,
        };
        assert forall|j: int| 0 <= j < end implies !labels_match(
            (#[trigger] labels[j])@,
            request@,
        ) by {
            assert(texts[j] == labels[j]@);
            assert(!labels_match(texts[j], request@));
        }
    }
    found
}

/// Resolves the selection of the option labelled `request` against what the
/// device reported for `id`.
pub fn preset_command(id: SettingId, request: &str, reading: Option<&Setting>) -> (command: Option<
    Command,
>)
    requires
        reading matches Some(setting) ==> setting@.wf(),
    ensures
        command.deep_view() == preset_outcome(id, request@, reading.deep_view()),
{
    match reading {
        Some(Setting::Select { options, localized_options, .. }) => match match_preset(
            localized_options,
            request,
        ) {
            Some(index) => Some(Command { id, value: Value::Token(options[index].clone()) }),
            None => None,
        },
        _ => None,
    }
}

/// What it means that a label was found: `preset_index` returns the first
/// index whose label, taken as a whole, matches the request, and returns
/// nothing exactly when no label does.
pub proof fn preset_index_is_first_match(labels: Seq<Seq<char>>, request: Seq<char>)
    ensures
        (match preset_index(labels, request) {
            Some(index) => {
                &&& 0 <= index < labels.len()
                &&& labels_match(labels[index], request)
                &&& forall|j: int| 0 <= j < index ==> !labels_match(labels[j], request)
            },
            None => forall|j: int| 0 <= j < labels.len() ==> !labels_match(labels[j], request),
        }),
{
    let candidates = lowered(labels);
    let wanted = lowercase(request);
    candidates.index_of_first_ensures(wanted);
    match candidates.index_of_first(wanted) {
        Some(index) => {
            assert forall|j: int| 0 <= j < index implies !labels_match(labels[j], request) by {
                assert(candidates[j] != wanted);
            }
        },
        None => {
            assert forall|j: int| 0 <= j < labels.len() implies !labels_match(
                labels[j],
                request,
            ) by {
                if labels_match(labels[j], request) {
                    assert(candidates[j] == wanted);
                }
            }
        },
    }
}

/// Matching does not see the case of the request: two requests with the same
/// lowercase form find the same option.
pub proof fn request_case_is_ignored(labels: Seq<Seq<char>>, one: Seq<char>, other: Seq<char>)
    requires
        lowercase(one) == lowercase(other),
    ensures
        preset_index(labels, one) == preset_index(labels, other),
{
}

/// Matching does not see the case of the labels either: two label lists
/// whose labels agree in lowercase, place by place, answer alike.
pub proof fn label_case_is_ignored(
    labels: Seq<Seq<char>>,
    others: Seq<Seq<char>>,
    request: Seq<char>,
)
    requires
        labels.len() == others.len(),
        forall|i: int| 0 <= i < labels.len() ==> lowercase(labels[i]) == lowercase(others[i]),
    ensures
        preset_index(labels, request) == preset_index(others, request),
{
    assert(lowered(labels) =~= lowered(others));
}

/// A request matches a label as a whole or not at all: when the request in
/// lowercase is shorter than the label in lowercase, as every proper prefix
/// is, the two do not match.
pub proof fn shorter_request_does_not_match(label: Seq<char>, request: Seq<char>)
    requires
        lowercase(request).len() < lowercase(label).len(),
    ensures
        !labels_match(label, request),
{
}

} // verus!
