//! Mapping speaker labels to names: which labels a meeting has (in the order
//! they are first heard), and which stored profile or identification belongs
//! to a label, and which name a label gets. Confidence scores are
//! floating-point numbers: whether one reaches the threshold is decided by the
//! caller and handed in as a `bool`.

use vstd::prelude::*;
use crate::text::{chars_of, eq_chars};

verus! {

/// The labels in the order they first occur, each once.
pub open spec fn distinct_in_order(labels: Seq<Seq<char>>) -> Seq<Seq<char>>
    decreases labels.len(),
{
    if labels.len() == 0 {
        seq![]
    } else {
        let before = distinct_in_order(labels.drop_last());
        if before.contains(labels.last()) {
            before
        } else {
            before.push(labels.last())
        }
    }
}

/// The position of the first item equal to `key`.
pub open spec fn first_position(items: Seq<Seq<char>>, key: Seq<char>) -> Option<int> {
    if exists|i: int| 0 <= i < items.len() && items[i] == key {
        Some(choose|i: int| 0 <= i < items.len() && items[i] == key && forall|j: int| 0 <= j < i ==> items[j] != key)
    } else {
        None
    }
}

/// The speaker labels of a meeting's segments, each once, in the order they
/// are first heard; every label gets one mapping.
pub fn speaker_labels_in_order(segment_labels: &Vec<String>) -> (r: Vec<String>)
    ensures
        r@.map_values(|s: String| s@) == distinct_in_order(segment_labels@.map_values(|s: String| s@)),
{
    let ghost ls = segment_labels@.map_values(|s: String| s@);
    let mut r: Vec<String> = Vec::new();
    let mut i: usize = 0;
    while i < segment_labels.len()
        invariant
            i <= segment_labels.len(),
            ls == segment_labels@.map_values(|s: String| s@),
            r@.map_values(|s: String| s@) == distinct_in_order(ls.take(i as int)),
        decreases segment_labels.len() - i,
    {
        assert(ls.take(i + 1).drop_last() == ls.take(i as int));
        let label = chars_of(segment_labels[i].as_str());
        let ghost rv = r@.map_values(|s: String| s@);
        let mut seen = false;
        let mut j: usize = 0;
        while j < r.len()
            invariant
                j <= r.len(),
                i < segment_labels.len(),
                ls == segment_labels@.map_values(|s: String| s@),
                rv == r@.map_values(|s: String| s@),
                label@ == ls[i as int],
                seen <==> exists|k: int| 0 <= k < j && rv[k] == label@,
            decreases r.len() - j,
        {
            assert(rv[j as int] == r@[j as int]@);
            if eq_chars(&chars_of(r[j].as_str()), &label) {
                seen = true;
            }
            j = j + 1;
        }
        assert(seen <==> rv.contains(ls[i as int]));
        if !seen {
            r.push(segment_labels[i].clone());
            assert(r@.map_values(|s: String| s@) =~= rv.push(ls[i as int]));
        }
        i = i + 1;
    }
    assert(ls.take(segment_labels.len() as int) == ls);
    r
}

/// The position of the first item equal to `key`: the stored profile whose
/// fingerprint equals an embedding's, or the identification of a label.
pub fn find_first(items: &Vec<String>, key: &str) -> (r: Option<usize>)
    ensures
        match r {
            Some(i) => first_position(items@.map_values(|s: String| s@), key@) == Some(i as int),
            None => first_position(items@.map_values(|s: String| s@), key@) is None,
        },
{
    let ghost v = items@.map_values(|s: String| s@);
    let k = chars_of(key);
    let mut i: usize = 0;
    while i < items.len()
        invariant
            i <= items.len(),
            v == items@.map_values(|s: String| s@),
            k@ == key@,
            forall|j: int| 0 <= j < i ==> v[j] != key@,
        decreases items.len() - i,
    {
        if eq_chars(&chars_of(items[i].as_str()), &k) {
            proof {
                assert(v[i as int] == key@);
                let c = choose|c: int| 0 <= c < v.len() && v[c] == key@ && forall|j: int| 0 <= j < c ==> v[j] != key@;
                assert(c == i);
            }
            return Some(i);
        }
        i = i + 1;
    }
    None
}

/// Each label appears once in the mapping order, and every label of the
/// meeting appears.
pub proof fn lemma_labels_once_each(labels: Seq<Seq<char>>)
    ensures
        forall|a: int, b: int|
            0 <= a < b < distinct_in_order(labels).len() ==> #[trigger] distinct_in_order(labels)[a]
                != #[trigger] distinct_in_order(labels)[b],
        forall|i: int| 0 <= i < labels.len() ==> distinct_in_order(labels).contains(#[trigger] labels[i]),
    decreases labels.len(),
{
    if labels.len() > 0 {
        let d = labels.drop_last();
        lemma_labels_once_each(d);
        let before = distinct_in_order(d);
        let after = distinct_in_order(labels);
        assert forall|i: int| 0 <= i < labels.len() implies after.contains(#[trigger] labels[i]) by {
            if i < labels.len() - 1 {
                assert(d[i] == labels[i]);
                assert(before.contains(d[i]));
                if !before.contains(labels.last()) {
                    let k = choose|k: int| 0 <= k < before.len() && before[k] == d[i];
                    assert(after[k] == d[i]);
                }
            } else if !before.contains(labels.last()) {
                assert(after[before.len() as int] == labels.last());
            }
        }
        if !before.contains(labels.last()) {
            assert forall|a: int, b: int| 0 <= a < b < after.len() implies #[trigger] after[a] != #[trigger] after[b] by {
                if b == before.len() {
                    assert(after[a] == before[a]);
                    assert(before[a] != labels.last());
                } else {
                    assert(after[a] == before[a] && after[b] == before[b]);
                }
            }
        }
    }
}

/// The name a speaker label gets.
#[derive(Clone, Debug, PartialEq, Eq)]
pub enum MappingChoice {
    /// The label's voice matches a stored profile: its name, with full
    /// confidence (1.0).
    KnownProfile { name: String, profile_id: String },
    /// A confident identification: its name (if the model found one), with the
    /// identification's confidence.
    Identified { name: Option<String> },
    /// An identification below the threshold: the label is kept, with the
    /// identification's confidence, marked uncertain.
    Uncertain,
    /// No identification: the label is kept, with confidence 0.
    Unidentified,
}

/// The naming policy, in order: a stored voice profile (name and id) wins;
/// otherwise an identification whose confidence reaches the threshold gives
/// its name; an identification below it keeps the label; without one the
/// label is kept too. `identified_name` is `None` when the label has no
/// identification, and `Some` of the name the model found otherwise.
pub open spec fn mapping_choice_spec(
    profile: Option<(String, String)>,
    identified_name: Option<Option<String>>,
    confident: bool,
) -> MappingChoice {
    match profile {
        Some((name, profile_id)) => MappingChoice::KnownProfile { name, profile_id },
        None => match identified_name {
            Some(name) => if confident {
                MappingChoice::Identified { name }
            } else {
                MappingChoice::Uncertain
            },
            None => MappingChoice::Unidentified,
        },
    }
}

/// Chooses the name of a speaker label (see `mapping_choice_spec`).
pub fn choose_mapping(
    profile: Option<(String, String)>,
    identified_name: Option<Option<String>>,
    confident: bool,
) -> (r: MappingChoice)
    ensures
        r == mapping_choice_spec(profile, identified_name, confident),
{
    match profile {
        Some((name, profile_id)) => MappingChoice::KnownProfile { name, profile_id },
        None => match identified_name {
            Some(name) => if confident {
                MappingChoice::Identified { name }
            } else {
                MappingChoice::Uncertain
            },
            None => MappingChoice::Unidentified,
        },
    }
}

} // verus!
