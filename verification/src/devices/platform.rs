//! The Linux device list: input devices named by the friendly-name
//! generator, and PulseAudio / PipeWire monitor sources for capturing system
//! audio, each friendly name listed once.
//!
//! Enumerating devices and running `pactl` is left to the caller; this module
//! reads `pactl` output and builds the list.

use vstd::prelude::*;
use crate::devices::friendly_names::{cache_entries, friendly_name, DeviceType, FriendlyNameGenerator};
use crate::text::{
    chars_of, contains, contains_chars, eq_chars, lines, lines_of, opt_view, seqs, slice_chars, starts_with,
    starts_with_chars, string_of, trim, trim_chars, words, split_words,
};

verus! {

/// Scanning `pactl list sources` lines for the description of `source`: the
/// name of the last `Name:` line, and the first description found under a
/// `Name:` line naming `source`.
pub open spec fn description_scan(ls: Seq<Seq<char>>, source: Seq<char>) -> (Option<Seq<char>>, Option<Seq<char>>)
    decreases ls.len(),
{
    if ls.len() == 0 {
        (None, None)
    } else {
        let (current, found) = description_scan(ls.drop_last(), source);
        if found is Some {
            (current, found)
        } else {
            let t = trim(ls.last());
            let name = if starts_with(t, "Name: "@) {
                Some(t.skip("Name: "@.len() as int))
            } else {
                current
            };
            if starts_with(t, "Description: "@) && name == Some(source) {
                (name, Some(t.skip("Description: "@.len() as int)))
            } else {
                (name, None)
            }
        }
    }
}

/// The description `pactl list sources` output gives `source`, if any.
pub open spec fn source_description_spec(output: Seq<char>, source: Seq<char>) -> Option<Seq<char>> {
    description_scan(lines(output), source).1
}

/// The description that `pactl list sources` output gives the source
/// `source_name` (the first `Description:` line while the last `Name:` line
/// names it).
pub fn source_description(pactl_output: &str, source_name: &str) -> (r: Option<String>)
    ensures
        opt_view(r) == source_description_spec(pactl_output@, source_name@),
{
    let text = chars_of(pactl_output);
    let ls = lines_of(&text);
    let ghost lv = seqs(ls@);
    let source = chars_of(source_name);
    let name_prefix = chars_of("Name: ");
    let desc_prefix = chars_of("Description: ");
    let mut current: Option<Vec<char>> = None;
    let mut i: usize = 0;
    while i < ls.len()
        invariant
            i <= ls.len(),
            lv == seqs(ls@),
            lv == lines(text@),
            text@ == pactl_output@,
            source@ == source_name@,
            name_prefix@ == "Name: "@,
            desc_prefix@ == "Description: "@,
            description_scan(lv.take(i as int), source@) == (opt_seq(current), None::<Seq<char>>),
        decreases ls.len() - i,
    {
        assert(lv.take(i + 1).drop_last() == lv.take(i as int));
        let t = trim_chars(&ls[i]);
        if starts_with_chars(&t, &name_prefix) {
            current = Some(slice_chars(&t, name_prefix.len(), t.len()));
        }
        if starts_with_chars(&t, &desc_prefix) {
            let matches_source = match &current {
                Some(c) => eq_chars(c, &source),
                None => false,
            };
            if matches_source {
                let d = slice_chars(&t, desc_prefix.len(), t.len());
                proof {
                    lemma_scan_found_stays(lv, source@, i + 1);
                }
                return Some(string_of(&d));
            }
        }
        i = i + 1;
    }
    assert(lv.take(ls.len() as int) == lv);
    None
}

/// The characters of an optional character vector.
pub open spec fn opt_seq(o: Option<Vec<char>>) -> Option<Seq<char>> {
    match o {
        Some(v) => Some(v@),
        None => None,
    }
}

/// Once found, the description stays found.
pub proof fn lemma_scan_found_stays(ls: Seq<Seq<char>>, source: Seq<char>, i: int)
    requires
        0 <= i <= ls.len(),
        description_scan(ls.take(i), source).1 is Some,
    ensures
        description_scan(ls, source).1 == description_scan(ls.take(i), source).1,
    decreases ls.len() - i,
{
    if i < ls.len() {
        assert(ls.take(i + 1).drop_last() == ls.take(i));
        lemma_scan_found_stays(ls, source, i + 1);
    } else {
        assert(ls.take(i) == ls);
    }
}

/// The monitor sources in `pactl list sources short` lines: the second column
/// of every line that has one containing `.monitor`.
pub open spec fn monitor_names(ls: Seq<Seq<char>>) -> Seq<Seq<char>>
    decreases ls.len(),
{
    if ls.len() == 0 {
        seq![]
    } else {
        let before = monitor_names(ls.drop_last());
        let columns = words(ls.last());
        if columns.len() >= 2 && contains(columns[1], ".monitor"@) {
            before.push(columns[1])
        } else {
            before
        }
    }
}

/// The monitor sources listed by `pactl list sources short`.
pub fn monitor_sources(short_output: &str) -> (r: Vec<String>)
    ensures
        r@.map_values(|s: String| s@) == monitor_names(lines(short_output@)),
{
    let text = chars_of(short_output);
    let ls = lines_of(&text);
    let ghost lv = seqs(ls@);
    let marker = chars_of(".monitor");
    let mut r: Vec<String> = Vec::new();
    let mut i: usize = 0;
    while i < ls.len()
        invariant
            i <= ls.len(),
            lv == seqs(ls@),
            lv == lines(text@),
            text@ == short_output@,
            marker@ == ".monitor"@,
            r@.map_values(|s: String| s@) == monitor_names(lv.take(i as int)),
        decreases ls.len() - i,
    {
        assert(lv.take(i + 1).drop_last() == lv.take(i as int));
        let columns = split_words(&ls[i]);
        if columns.len() >= 2 && contains_chars(&columns[1], &marker) {
            let ghost before = r@;
            r.push(string_of(&columns[1]));
            assert(r@.map_values(|s: String| s@) =~= before.map_values(|s: String| s@).push(columns@[1]@));
        }
        i = i + 1;
    }
    assert(lv.take(ls.len() as int) == lv);
    r
}

/// A device in the list: raw name, friendly name, type.
pub type ListedDevice = (String, String, DeviceType);

/// A listed device as plain values.
pub open spec fn listed_view(d: ListedDevice) -> (Seq<char>, Seq<char>, DeviceType) {
    (d.0@, d.1@, d.2)
}

/// Whether a friendly name is already listed.
pub open spec fn listed(ds: Seq<(Seq<char>, Seq<char>, DeviceType)>, friendly: Seq<char>) -> bool {
    exists|j: int| 0 <= j < ds.len() && ds[j].1 == friendly
}

/// The input devices: every raw name without `monitor` in it, under its
/// friendly name, skipping a friendly name already listed.
pub open spec fn input_list(
    cache: Option<Seq<(Seq<char>, Seq<char>)>>,
    names: Seq<Seq<char>>,
) -> Seq<(Seq<char>, Seq<char>, DeviceType)>
    decreases names.len(),
{
    if names.len() == 0 {
        seq![]
    } else {
        let before = input_list(cache, names.drop_last());
        let raw = names.last();
        let f = friendly_name(cache, raw, DeviceType::Input);
        if contains(raw, "monitor"@) || listed(before, f) {
            before
        } else {
            before.push((raw, f, DeviceType::Input))
        }
    }
}

/// The monitor sources (output devices): each under its description (or its
/// name when it has none), skipping a description already listed.
pub open spec fn monitor_list(monitors: Seq<(Seq<char>, Option<Seq<char>>)>) -> Seq<(Seq<char>, Seq<char>, DeviceType)>
    decreases monitors.len(),
{
    if monitors.len() == 0 {
        seq![]
    } else {
        let before = monitor_list(monitors.drop_last());
        let (name, description) = monitors.last();
        let label = match description {
            Some(d) => d,
            None => name,
        };
        if listed(before, label) {
            before
        } else {
            before.push((name, label, DeviceType::Output))
        }
    }
}

/// A monitor source as plain values.
pub open spec fn monitor_view(m: (String, Option<String>)) -> (Seq<char>, Option<Seq<char>>) {
    (m.0@, opt_view(m.1))
}

/// Whether the list already has the friendly name `f`.
fn has_friendly(ds: &Vec<ListedDevice>, f: &Vec<char>) -> (r: bool)
    ensures
        r == listed(ds@.map_values(|d: ListedDevice| listed_view(d)), f@),
{
    let ghost v = ds@.map_values(|d: ListedDevice| listed_view(d));
    let mut j: usize = 0;
    while j < ds.len()
        invariant
            j <= ds.len(),
            v == ds@.map_values(|d: ListedDevice| listed_view(d)),
            forall|k: int| 0 <= k < j ==> v[k].1 != f@,
        decreases ds.len() - j,
    {
        if eq_chars(&chars_of(ds[j].1.as_str()), f) {
            assert(v[j as int].1 == f@);
            return true;
        }
        j = j + 1;
    }
    false
}

/// The Linux device list: the input devices (see `input_list`) followed by
/// the monitor sources (see `monitor_list`); a friendly name is listed once
/// among the inputs and once among the outputs.
pub fn linux_audio_devices(
    generator: &FriendlyNameGenerator,
    input_names: &Vec<String>,
    monitors: &Vec<(String, Option<String>)>,
) -> (r: Vec<ListedDevice>)
    ensures
        r@.map_values(|d: ListedDevice| listed_view(d)) == input_list(
            cache_entries(generator.pulse_cache),
            input_names@.map_values(|s: String| s@),
        ) + monitor_list(monitors@.map_values(|m: (String, Option<String>)| monitor_view(m))),
{
    let ghost cache = cache_entries(generator.pulse_cache);
    let ghost names = input_names@.map_values(|s: String| s@);
    let ghost ms = monitors@.map_values(|m: (String, Option<String>)| monitor_view(m));
    let monitor_word = chars_of("monitor");
    let mut inputs: Vec<ListedDevice> = Vec::new();
    let mut i: usize = 0;
    while i < input_names.len()
        invariant
            i <= input_names.len(),
            names == input_names@.map_values(|s: String| s@),
            cache == cache_entries(generator.pulse_cache),
            monitor_word@ == "monitor"@,
            inputs@.map_values(|d: ListedDevice| listed_view(d)) == input_list(cache, names.take(i as int)),
        decreases input_names.len() - i,
    {
        assert(names.take(i + 1).drop_last() == names.take(i as int));
        let raw = chars_of(input_names[i].as_str());
        if !contains_chars(&raw, &monitor_word) {
            let f = generator.generate(input_names[i].as_str(), DeviceType::Input);
            let fc = chars_of(f.as_str());
            if !has_friendly(&inputs, &fc) {
                let ghost before = inputs@;
                inputs.push((input_names[i].clone(), f, DeviceType::Input));
                assert(inputs@.map_values(|d: ListedDevice| listed_view(d)) =~= before.map_values(
                    |d: ListedDevice| listed_view(d),
                ).push((names[i as int], fc@, DeviceType::Input)));
            }
        }
        i = i + 1;
    }
    assert(names.take(input_names.len() as int) == names);
    let mut outputs: Vec<ListedDevice> = Vec::new();
    let mut k: usize = 0;
    while k < monitors.len()
        invariant
            k <= monitors.len(),
            ms == monitors@.map_values(|m: (String, Option<String>)| monitor_view(m)),
            outputs@.map_values(|d: ListedDevice| listed_view(d)) == monitor_list(ms.take(k as int)),
        decreases monitors.len() - k,
    {
        assert(ms.take(k + 1).drop_last() == ms.take(k as int));
        let (name, description) = &monitors[k];
        let label = match description {
            Some(d) => d.clone(),
            None => name.clone(),
        };
        let lc = chars_of(label.as_str());
        if !has_friendly(&outputs, &lc) {
            let ghost before = outputs@;
            outputs.push((name.clone(), label, DeviceType::Output));
            assert(outputs@.map_values(|d: ListedDevice| listed_view(d)) =~= before.map_values(
                |d: ListedDevice| listed_view(d),
            ).push((ms[k as int].0, lc@, DeviceType::Output)));
        }
        k = k + 1;
    }
    assert(ms.take(monitors.len() as int) == ms);
    let ghost iv = inputs@.map_values(|d: ListedDevice| listed_view(d));
    let ghost ov = outputs@.map_values(|d: ListedDevice| listed_view(d));
    let mut r = inputs;
    let mut m: usize = 0;
    while m < outputs.len()
        invariant
            m <= outputs.len(),
            ov == outputs@.map_values(|d: ListedDevice| listed_view(d)),
            r@.map_values(|d: ListedDevice| listed_view(d)) == iv + ov.take(m as int),
        decreases outputs.len() - m,
    {
        let d = (outputs[m].0.clone(), outputs[m].1.clone(), outputs[m].2);
        let ghost before = r@;
        r.push(d);
        assert(r@.map_values(|d: ListedDevice| listed_view(d)) =~= before.map_values(|d: ListedDevice| listed_view(d)).push(
            ov[m as int],
        ));
        assert(iv + ov.take(m + 1) =~= (iv + ov.take(m as int)).push(ov[m as int]));
        m = m + 1;
    }
    assert(ov.take(outputs.len() as int) == ov);
    r
}

/// No friendly name occurs twice in the list.
pub open spec fn names_unique(ds: Seq<(Seq<char>, Seq<char>, DeviceType)>) -> bool {
    forall|a: int, b: int| 0 <= a < b < ds.len() ==> #[trigger] ds[a].1 != #[trigger] ds[b].1
}

/// Adding a name that is not listed keeps names unique.
proof fn lemma_push_unlisted(ds: Seq<(Seq<char>, Seq<char>, DeviceType)>, d: (Seq<char>, Seq<char>, DeviceType))
    requires
        names_unique(ds),
        !listed(ds, d.1),
    ensures
        names_unique(ds.push(d)),
{
    let e = ds.push(d);
    assert forall|a: int, b: int| 0 <= a < b < e.len() implies #[trigger] e[a].1 != #[trigger] e[b].1 by {
        if b == ds.len() {
            assert(ds[a].1 != d.1);
        } else {
            assert(e[a] == ds[a] && e[b] == ds[b]);
        }
    }
}

/// Every friendly name occurs once among the listed inputs.
pub proof fn lemma_inputs_listed_once(cache: Option<Seq<(Seq<char>, Seq<char>)>>, names: Seq<Seq<char>>)
    ensures
        names_unique(input_list(cache, names)),
    decreases names.len(),
{
    if names.len() > 0 {
        lemma_inputs_listed_once(cache, names.drop_last());
        let before = input_list(cache, names.drop_last());
        let raw = names.last();
        let f = friendly_name(cache, raw, DeviceType::Input);
        if !(contains(raw, "monitor"@) || listed(before, f)) {
            lemma_push_unlisted(before, (raw, f, DeviceType::Input));
        }
    }
}

/// Every friendly name occurs once among the listed monitor sources.
pub proof fn lemma_monitors_listed_once(monitors: Seq<(Seq<char>, Option<Seq<char>>)>)
    ensures
        names_unique(monitor_list(monitors)),
    decreases monitors.len(),
{
    if monitors.len() > 0 {
        lemma_monitors_listed_once(monitors.drop_last());
        let before = monitor_list(monitors.drop_last());
        let (name, description) = monitors.last();
        let label = match description {
            Some(d) => d,
            None => name,
        };
        if !listed(before, label) {
            lemma_push_unlisted(before, (name, label, DeviceType::Output));
        }
    }
}

} // verus!
