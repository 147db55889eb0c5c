//! Friendly names for audio devices.
//!
//! A raw device name is looked up in the PulseAudio / PipeWire description
//! table first (exactly, by ALSA card name, then under related names), then
//! parsed by pattern, and finally cleaned up; the result is never empty.

use vstd::prelude::*;
use crate::text::{
    opt_view,
    occurs_at, append_chars, chars_of, concat_chars, concat_str, contains, contains_chars, ends_with,
    ends_with_chars, find, find_chars, lowercase_of, slice_chars, starts_with, starts_with_chars,
    lowercase, string_of, trim, trim_chars, trim_end_matches, trim_end_matches_chars,
};
use crate::devices::patterns::{
    alsa_plugin_spec, cleanup_name_chars, cleanup_spec, extract_usb_info, hw_card_name,
    hw_card_pattern, hw_simple_name, hw_simple_pattern, monitor_spec, parse_alsa_plugin,
    parse_hw_card, parse_hw_simple, parse_monitor, regex_captures, triple_view, usb_info,
    usb_pattern,
};
use crate::devices::pulseaudio::{entries_map, DeviceDescriptions};

verus! {

/// Whether a device records (input) or plays (output).
#[derive(Clone, Copy, Debug, PartialEq, Eq, Structural)]
pub enum DeviceType {
    Input,
    Output,
}

/// The name used when nothing better is known.
pub open spec fn unknown_device(device_type: DeviceType) -> Seq<char> {
    match device_type {
        DeviceType::Input => "Unknown Input Device"@,
        DeviceType::Output => "Unknown Output Device"@,
    }
}

/// The PulseAudio name prefix of a device type.
pub open spec fn type_prefix(device_type: DeviceType) -> Seq<char> {
    match device_type {
        DeviceType::Input => "alsa_input."@,
        DeviceType::Output => "alsa_output."@,
    }
}

/// The ALSA card name in a raw name: what follows `CARD=` up to the next `','`,
/// or to the end (for a monitor, without trailing `.monitor`).
pub open spec fn card_name(raw: Seq<char>, monitor: bool) -> Option<Seq<char>> {
    match find(raw, "CARD="@) {
        Some(start) => {
            let after = raw.skip(start + "CARD="@.len());
            match find(after, ","@) {
                Some(comma) => Some(after.take(comma)),
                None => Some(
                    if monitor {
                        trim_end_matches(after, ".monitor"@)
                    } else {
                        after
                    },
                ),
            }
        },
        None => None,
    }
}

/// A PulseAudio name mentions the card, ignoring case.
pub open spec fn mentions_card(name: Seq<char>, card: Seq<char>) -> bool {
    contains(lowercase(name), lowercase(card))
}

/// The first entry at or after `i` that satisfies `pred`.
pub open spec fn first_entry_from(
    es: Seq<(Seq<char>, Seq<char>)>,
    pred: spec_fn((Seq<char>, Seq<char>)) -> bool,
    i: int,
) -> Option<int>
    decreases es.len() - i,
{
    if i < 0 || i >= es.len() {
        None
    } else if pred(es[i]) {
        Some(i)
    } else {
        first_entry_from(es, pred, i + 1)
    }
}

/// The first entry that satisfies `pred`.
pub open spec fn first_entry(
    es: Seq<(Seq<char>, Seq<char>)>,
    pred: spec_fn((Seq<char>, Seq<char>)) -> bool,
) -> Option<int> {
    first_entry_from(es, pred, 0)
}

/// A sink of the card whose name ends (or does not end) in `.monitor`.
pub open spec fn sink_of_card(card: Seq<char>, monitor: bool) -> spec_fn((Seq<char>, Seq<char>)) -> bool {
    |e: (Seq<char>, Seq<char>)|
        starts_with(e.0, "alsa_output."@) && mentions_card(e.0, card) && ends_with(e.0, ".monitor"@)
            == monitor
}

/// A device of the given type of the card.
pub open spec fn device_of_card(card: Seq<char>, device_type: DeviceType) -> spec_fn(
    (Seq<char>, Seq<char>),
) -> bool {
    |e: (Seq<char>, Seq<char>)| starts_with(e.0, type_prefix(device_type)) && mentions_card(e.0, card)
}

/// The description found for an ALSA device by its card name.
pub open spec fn card_match(
    es: Seq<(Seq<char>, Seq<char>)>,
    raw: Seq<char>,
    device_type: DeviceType,
) -> Option<Seq<char>> {
    if device_type == DeviceType::Output && contains(raw, "monitor"@) {
        match card_name(raw, true) {
            Some(card) => match first_entry(es, sink_of_card(card, true)) {
                Some(i) => Some(es[i].1),
                None => match first_entry(es, sink_of_card(card, false)) {
                    Some(i) => Some("Monitor of "@ + es[i].1),
                    None => None,
                },
            },
            None => None,
        }
    } else {
        match card_name(raw, false) {
            Some(card) => match first_entry(es, device_of_card(card, device_type)) {
                Some(i) => Some(es[i].1),
                None => None,
            },
            None => None,
        }
    }
}

/// Related names to look a device up under: with the type's prefix added when
/// it has none, without its prefix, and with the opposite prefix.
pub open spec fn name_variants(raw: Seq<char>, device_type: DeviceType) -> Seq<Seq<char>> {
    let is_in = starts_with(raw, "alsa_input."@);
    let is_out = starts_with(raw, "alsa_output."@);
    let v1: Seq<Seq<char>> = if !is_in && !is_out {
        seq![type_prefix(device_type) + raw]
    } else {
        seq![]
    };
    let v2 = if is_in {
        v1.push(raw.skip("alsa_input."@.len() as int))
    } else {
        v1
    };
    let v3 = if is_out {
        v2.push(raw.skip("alsa_output."@.len() as int))
    } else {
        v2
    };
    if is_in {
        v3.push("alsa_output."@ + raw.skip("alsa_input."@.len() as int))
    } else if is_out {
        v3.push("alsa_input."@ + raw.skip("alsa_output."@.len() as int))
    } else {
        v3
    }
}

/// The first name at or after `i` that the map has.
pub open spec fn first_known_from(m: Map<Seq<char>, Seq<char>>, vs: Seq<Seq<char>>, i: int) -> Option<
    Seq<char>,
>
    decreases vs.len() - i,
{
    if i < 0 || i >= vs.len() {
        None
    } else if m.contains_key(vs[i]) {
        Some(m[vs[i]])
    } else {
        first_known_from(m, vs, i + 1)
    }
}

/// The friendly name that a known pattern gives.
pub open spec fn pattern_name(raw: Seq<char>) -> Option<Seq<char>> {
    match monitor_spec(raw) {
        Some(f) => Some(f),
        None => match usb_info(regex_captures(usb_pattern(), raw)) {
            Some((vendor, model, profile)) => Some(
                if vendor.len() == 0 {
                    model + " ("@ + profile + ")"@
                } else {
                    vendor + " "@ + model + " ("@ + profile + ")"@
                },
            ),
            None => match alsa_plugin_spec(raw) {
                Some((vendor, device_type, profile)) => Some(
                    vendor + " "@ + device_type + " ("@ + profile + ")"@,
                ),
                None => match hw_card_name(regex_captures(hw_card_pattern(), raw)) {
                    Some(f) => Some(f),
                    None => hw_simple_name(regex_captures(hw_simple_pattern(), raw)),
                },
            },
        },
    }
}

/// The friendly name of a device, given the description table (if any).
pub open spec fn friendly_name(
    cache: Option<Seq<(Seq<char>, Seq<char>)>>,
    raw: Seq<char>,
    device_type: DeviceType,
) -> Seq<char> {
    if trim(raw).len() == 0 {
        unknown_device(device_type)
    } else if cache is Some && entries_map(cache->0).contains_key(raw) {
        entries_map(cache->0)[raw]
    } else if cache is Some && card_match(cache->0, raw, device_type) is Some {
        card_match(cache->0, raw, device_type)->0
    } else if cache is Some && first_known_from(
        entries_map(cache->0),
        name_variants(raw, device_type),
        0,
    ) is Some {
        first_known_from(entries_map(cache->0), name_variants(raw, device_type), 0)->0
    } else if pattern_name(raw) is Some {
        pattern_name(raw)->0
    } else if cleanup_spec(raw).len() == 0 {
        unknown_device(device_type)
    } else {
        cleanup_spec(raw)
    }
}

/// Generator of friendly device names.
pub struct FriendlyNameGenerator {
    /// PulseAudio / PipeWire descriptions, when a query found any.
    pub pulse_cache: Option<DeviceDescriptions>,
}

/// The entries of the table, when there is one.
pub open spec fn cache_entries(c: Option<DeviceDescriptions>) -> Option<Seq<(Seq<char>, Seq<char>)>> {
    match c {
        Some(t) => Some(t.entries()),
        None => None,
    }
}

/// The name for an unknown device of the given type.
fn unknown_device_exec(device_type: DeviceType) -> (r: String)
    ensures
        r@ == unknown_device(device_type),
{
    match device_type {
        DeviceType::Input => string_of(&chars_of("Unknown Input Device")),
        DeviceType::Output => string_of(&chars_of("Unknown Output Device")),
    }
}

/// The PulseAudio name prefix of a device type.
fn type_prefix_exec(device_type: DeviceType) -> (r: Vec<char>)
    ensures
        r@ == type_prefix(device_type),
{
    match device_type {
        DeviceType::Input => chars_of("alsa_input."),
        DeviceType::Output => chars_of("alsa_output."),
    }
}

/// The card name in a raw name (see `card_name`).
fn card_name_exec(raw: &Vec<char>, monitor: bool) -> (r: Option<Vec<char>>)
    ensures
        match r {
            Some(c) => card_name(raw@, monitor) == Some(c@),
            None => card_name(raw@, monitor) is None,
        },
{
    let key = chars_of("CARD=");
    match find_chars(raw, &key) {
        Some(start) => {
            proof {
                crate::text::lemma_find_from(raw@, key@, 0);
                assert(occurs_at(raw@, key@, start as int));
            }
            assert(start + key.len() <= raw.len());
            let after = slice_chars(raw, start + key.len(), raw.len());
            assert(after@ == raw@.skip(start + "CARD="@.len()));
            let comma = chars_of(",");
            match find_chars(&after, &comma) {
                Some(c) => {
                    proof {
                        crate::text::lemma_find_from(after@, comma@, 0);
                        assert(occurs_at(after@, comma@, c as int));
                    }
                    let card = slice_chars(&after, 0, c);
                    assert(card@ == after@.take(c as int));
                    Some(card)
                },
                None => {
                    if monitor {
                        let suffix = chars_of(".monitor");
                        Some(trim_end_matches_chars(&after, &suffix))
                    } else {
                        Some(after)
                    }
                },
            }
        },
        None => None,
    }
}

/// Whether a PulseAudio name mentions the card, ignoring case.
fn mentions_card_exec(name: &Vec<char>, card: &Vec<char>) -> (r: bool)
    ensures
        r == mentions_card(name@, card@),
{
    let ln = lowercase_of(name);
    let lc = lowercase_of(card);
    contains_chars(&ln, &lc)
}

impl FriendlyNameGenerator {
    /// A generator that uses the descriptions a PulseAudio query found; a
    /// failed query or one that found nothing means pattern-based naming only.
    pub fn new(query_result: Result<DeviceDescriptions, String>) -> (r: Self)
        ensures
            match query_result {
                Ok(t) => if t@.len() > 0 {
                    cache_entries(r.pulse_cache) == Some(t.entries())
                } else {
                    r.pulse_cache is None
                },
                Err(_) => r.pulse_cache is None,
            },
            query_result matches Ok(t) && crate::devices::pulseaudio::values_nonempty(t@) ==> descriptions_nonempty(
                cache_entries(r.pulse_cache),
            ),
    {
        match query_result {
            Ok(t) => {
                t.entries_agree();
                proof {
                    if crate::devices::pulseaudio::values_nonempty(t@) {
                        assert forall|i: int| 0 <= i < t.entries().len() implies #[trigger] t.entries()[i].1.len() > 0 by {
                            assert(t@.contains_key(t.entries()[i].0));
                        }
                    }
                }
                if t.is_empty() {
                    FriendlyNameGenerator { pulse_cache: None }
                } else {
                    FriendlyNameGenerator { pulse_cache: Some(t) }
                }
            },
            Err(_) => FriendlyNameGenerator { pulse_cache: None },
        }
    }

    /// Names to try in the description table for a raw name.
    pub fn generate_name_variants(&self, raw_name: &str, device_type: &DeviceType) -> (r: Vec<String>)
        ensures
            r@.map_values(|s: String| s@) == name_variants(raw_name@, *device_type),
    {
        let raw = chars_of(raw_name);
        let input = chars_of("alsa_input.");
        let output = chars_of("alsa_output.");
        let is_in = starts_with_chars(&raw, &input);
        let is_out = starts_with_chars(&raw, &output);
        let mut v: Vec<String> = Vec::new();
        let ghost spec_v = name_variants(raw@, *device_type);
        if !is_in && !is_out {
            let p = type_prefix_exec(*device_type);
            v.push(string_of(&concat_chars(&p, &raw)));
        }
        if is_in {
            v.push(string_of(&slice_chars(&raw, input.len(), raw.len())));
        }
        if is_out {
            v.push(string_of(&slice_chars(&raw, output.len(), raw.len())));
        }
        if is_in {
            let rest = slice_chars(&raw, input.len(), raw.len());
            v.push(string_of(&concat_chars(&output, &rest)));
        } else if is_out {
            let rest = slice_chars(&raw, output.len(), raw.len());
            v.push(string_of(&concat_chars(&input, &rest)));
        }
        assert(v@.map_values(|s: String| s@) =~= spec_v);
        v
    }

    /// The description found for an ALSA device by its card name.
    pub fn find_pulseaudio_match_by_card(&self, raw_name: &str, device_type: &DeviceType) -> (r: Option<String>)
        ensures
            match self.pulse_cache {
                Some(t) => opt_view(r) == card_match(t.entries(), raw_name@, *device_type),
                None => r is None,
            },
    {
        let cache = match &self.pulse_cache {
            Some(c) => c,
            None => return None,
        };
        let raw = chars_of(raw_name);
        let ghost es = cache.entries();
        let n = cache.entry_count();
        let monitor_word = chars_of("monitor");
        let out_prefix = chars_of("alsa_output.");
        let mon_suffix = chars_of(".monitor");
        let is_output = match device_type {
            DeviceType::Output => true,
            DeviceType::Input => false,
        };
        if is_output && contains_chars(&raw, &monitor_word) {
            let card = match card_name_exec(&raw, true) {
                Some(c) => c,
                None => return None,
            };
            let ghost p1 = sink_of_card(card@, true);
            let mut i: usize = 0;
            while i < n
                invariant
                    n == es.len(),
                    es == cache.entries(),
                    i <= n,
                    out_prefix@ == "alsa_output."@,
                    mon_suffix@ == ".monitor"@,
                    p1 == sink_of_card(card@, true),
                    first_entry(es, p1) == first_entry_from(es, p1, i as int),
                    self.pulse_cache == Some(*cache),
                    raw@ == raw_name@,
                    *device_type == DeviceType::Output && contains(raw@, "monitor"@),
                    card_name(raw@, true) == Some(card@),
                decreases n - i,
            {
                let (name, desc) = cache.entry(i);
                let nc = chars_of(name.as_str());
                let hit = starts_with_chars(&nc, &out_prefix) && mentions_card_exec(&nc, &card)
                    && ends_with_chars(&nc, &mon_suffix);
                assert(nc@ == es[i as int].0);
                assert(p1(es[i as int]) == (starts_with(es[i as int].0, "alsa_output."@) && mentions_card(es[i as int].0, card@) && ends_with(es[i as int].0, ".monitor"@)));
                assert(hit == p1(es[i as int]));
                if hit {
                    assert(first_entry_from(es, p1, i as int) == Some(i as int));
                    return Some(desc.clone());
                }
                i = i + 1;
            }
            let ghost p2 = sink_of_card(card@, false);
            let mut j: usize = 0;
            while j < n
                invariant
                    n == es.len(),
                    es == cache.entries(),
                    j <= n,
                    out_prefix@ == "alsa_output."@,
                    mon_suffix@ == ".monitor"@,
                    first_entry(es, p1) is None,
                    p1 == sink_of_card(card@, true),
                    p2 == sink_of_card(card@, false),
                    self.pulse_cache == Some(*cache),
                    raw@ == raw_name@,
                    *device_type == DeviceType::Output && contains(raw@, "monitor"@),
                    card_name(raw@, true) == Some(card@),
                    first_entry(es, p2) == first_entry_from(es, p2, j as int),
                decreases n - j,
            {
                let (name, desc) = cache.entry(j);
                let nc = chars_of(name.as_str());
                let hit = starts_with_chars(&nc, &out_prefix) && mentions_card_exec(&nc, &card)
                    && !ends_with_chars(&nc, &mon_suffix);
                assert(hit == p2(es[j as int]));
                if hit {
                    assert(first_entry_from(es, p2, j as int) == Some(j as int));
                    let d = chars_of(desc.as_str());
                    return Some(string_of(&concat_chars(&chars_of("Monitor of "), &d)));
                }
                j = j + 1;
            }
            return None;
        }
        let card = match card_name_exec(&raw, false) {
            Some(c) => c,
            None => return None,
        };
        let prefix = type_prefix_exec(*device_type);
        let ghost p3 = device_of_card(card@, *device_type);
        let mut k: usize = 0;
        while k < n
            invariant
                n == es.len(),
                es == cache.entries(),
                k <= n,
                prefix@ == type_prefix(*device_type),
                p3 == device_of_card(card@, *device_type),
                self.pulse_cache == Some(*cache),
                raw@ == raw_name@,
                !(*device_type == DeviceType::Output && contains(raw@, "monitor"@)),
                card_name(raw@, false) == Some(card@),
                first_entry(es, p3) == first_entry_from(es, p3, k as int),
            decreases n - k,
        {
            let (name, desc) = cache.entry(k);
            let nc = chars_of(name.as_str());
            let hit = starts_with_chars(&nc, &prefix) && mentions_card_exec(&nc, &card);
            assert(hit == p3(es[k as int]));
            if hit {
                assert(first_entry_from(es, p3, k as int) == Some(k as int));
                return Some(desc.clone());
            }
            k = k + 1;
        }
        None
    }

    /// The friendly name that a known pattern gives, if any.
    pub fn parse_patterns(&self, raw_name: &str, device_type: &DeviceType) -> (r: Option<String>)
        ensures
            opt_view(r) == pattern_name(raw_name@),
    {
        match parse_monitor(raw_name) {
            Some(f) => return Some(f),
            None => {},
        }
        match extract_usb_info(raw_name) {
            Some((vendor, model, profile)) => {
                let mv = chars_of(model.as_str());
                let pv = chars_of(profile.as_str());
                let vv = chars_of(vendor.as_str());
                let mut out: Vec<char>;
                if vv.len() == 0 {
                    out = mv;
                } else {
                    out = vv;
                    out.push(' ');
                    append_chars(&mut out, &mv);
                }
                let open = chars_of(" (");
                append_chars(&mut out, &open);
                append_chars(&mut out, &pv);
                out.push(')');
                proof {
                    reveal_strlit(" ");
                    reveal_strlit(")");
                }
                assert(out@ == (if vendor@.len() == 0 {
                    model@ + " ("@ + profile@ + ")"@
                } else {
                    vendor@ + " "@ + model@ + " ("@ + profile@ + ")"@
                }));
                return Some(string_of(&out));
            },
            None => {},
        }
        match parse_alsa_plugin(raw_name) {
            Some((vendor, dev_type, profile)) => {
                let mut out = chars_of(vendor.as_str());
                out = concat_str(&out, " ");
                append_chars(&mut out, &chars_of(dev_type.as_str()));
                out = concat_str(&out, " (");
                append_chars(&mut out, &chars_of(profile.as_str()));
                out = concat_str(&out, ")");
                return Some(string_of(&out));
            },
            None => {},
        }
        match parse_hw_card(raw_name) {
            Some(f) => return Some(f),
            None => {},
        }
        parse_hw_simple(raw_name)
    }

    /// Generates a friendly name for a device.
    ///
    /// `hw:CARD=PCH,DEV=0` gives `Hardware: PCH (Device 0)` when the table does
    /// not know the device; an empty raw name gives `Unknown Input Device` or
    /// `Unknown Output Device`.
    pub fn generate(&self, raw_name: &str, device_type: DeviceType) -> (r: String)
        ensures
            r@ == friendly_name(cache_entries(self.pulse_cache), raw_name@, device_type),
            descriptions_nonempty(cache_entries(self.pulse_cache)) ==> r@.len() > 0,
    {
        proof {
            if descriptions_nonempty(cache_entries(self.pulse_cache)) {
                lemma_friendly_name_nonempty(cache_entries(self.pulse_cache), raw_name@, device_type);
            }
        }
        let raw = chars_of(raw_name);
        let trimmed = trim_chars(&raw);
        if trimmed.len() == 0 {
            return unknown_device_exec(device_type);
        }
        match &self.pulse_cache {
            Some(cache) => match cache.get(raw_name) {
                Some(d) => return d.clone(),
                None => {},
            },
            None => {},
        }
        match self.find_pulseaudio_match_by_card(raw_name, &device_type) {
            Some(f) => return f,
            None => {},
        }
        let ghost expected = friendly_name(cache_entries(self.pulse_cache), raw_name@, device_type);
        match &self.pulse_cache {
            Some(cache) => {
                let variants = self.generate_name_variants(raw_name, &device_type);
                let ghost vs = variants@.map_values(|s: String| s@);
                let ghost m = cache@;
                assert(m == entries_map(cache.entries()));
                assert(vs == name_variants(raw_name@, device_type));
                assert(first_known_from(m, vs, 0) is Some ==> expected == first_known_from(m, vs, 0)->0);
                let mut i: usize = 0;
                while i < variants.len()
                    invariant
                        i <= variants.len(),
                        vs == variants@.map_values(|s: String| s@),
                        vs.len() == variants.len(),
                        m == cache@,
                        self.pulse_cache == Some(*cache),
                        expected == friendly_name(cache_entries(self.pulse_cache), raw_name@, device_type),
                        descriptions_nonempty(cache_entries(self.pulse_cache)) ==> expected.len() > 0,
                        first_known_from(m, vs, 0) == first_known_from(m, vs, i as int),
                        first_known_from(m, vs, 0) is Some ==> expected == first_known_from(m, vs, 0)->0,
                    decreases variants.len() - i,
                {
                    assert(vs[i as int] == variants@[i as int]@);
                    match cache.get(variants[i].as_str()) {
                        Some(d) => {
                            assert(first_known_from(m, vs, i as int) == Some(m[vs[i as int]]));
                            let r = d.clone();
                            assert(r@ == expected);
                            return r;
                        },
                        None => {},
                    }
                    i = i + 1;
                }
            },
            None => {},
        }
        match self.parse_patterns(raw_name, &device_type) {
            Some(f) => return f,
            None => {},
        }
        let cleaned = cleanup_name_chars(&raw);
        if cleaned.len() == 0 {
            unknown_device_exec(device_type)
        } else {
            string_of(&cleaned)
        }
    }
}

/// Every description in the table (if there is one) is non-empty.
pub open spec fn descriptions_nonempty(cache: Option<Seq<(Seq<char>, Seq<char>)>>) -> bool {
    cache matches Some(es) ==> forall|i: int| 0 <= i < es.len() ==> #[trigger] es[i].1.len() > 0
}

/// A name in the map has the description of some entry with that name.
pub proof fn lemma_entries_map_value(es: Seq<(Seq<char>, Seq<char>)>, k: Seq<char>)
    requires
        entries_map(es).contains_key(k),
    ensures
        exists|j: int| 0 <= j < es.len() && es[j].0 == k && #[trigger] es[j].1 == entries_map(es)[k],
    decreases es.len(),
{
    if es.last().0 == k {
        assert(es[es.len() - 1].1 == entries_map(es)[k]);
    } else {
        lemma_entries_map_value(es.drop_last(), k);
        let j = choose|j: int|
            0 <= j < es.drop_last().len() && es.drop_last()[j].0 == k && #[trigger] es.drop_last()[j].1
                == entries_map(es.drop_last())[k];
        assert(es[j].1 == entries_map(es)[k]);
    }
}

/// A found entry is an entry.
pub proof fn lemma_first_entry_in_range(
    es: Seq<(Seq<char>, Seq<char>)>,
    pred: spec_fn((Seq<char>, Seq<char>)) -> bool,
    i: int,
)
    ensures
        first_entry_from(es, pred, i) matches Some(k) ==> 0 <= k < es.len(),
    decreases es.len() - i,
{
    if 0 <= i < es.len() && !pred(es[i]) {
        lemma_first_entry_in_range(es, pred, i + 1);
    }
}

/// A name found among the variants is in the map.
pub proof fn lemma_first_known_in_map(m: Map<Seq<char>, Seq<char>>, vs: Seq<Seq<char>>, i: int)
    ensures
        first_known_from(m, vs, i) matches Some(d) ==> exists|k: Seq<char>| m.contains_key(k) && #[trigger] m[k] == d,
    decreases vs.len() - i,
{
    if 0 <= i < vs.len() {
        if m.contains_key(vs[i]) {
            assert(m[vs[i]] == m[vs[i]]);
        } else {
            lemma_first_known_in_map(m, vs, i + 1);
        }
    }
}

/// A name a pattern gives is never empty.
pub proof fn lemma_pattern_name_nonempty(raw: Seq<char>)
    ensures
        pattern_name(raw) matches Some(f) ==> f.len() > 0,
{
    reveal_strlit(")");
    reveal_strlit(" (System Audio)");
    reveal_strlit("Hardware: ");
    reveal_strlit("Hardware Device ");
}

/// A friendly name is never empty (as long as the table, if any, has no empty
/// description): blank names become `Unknown … Device`, and every other rule
/// yields a non-empty name or falls through to one that does.
pub proof fn lemma_friendly_name_nonempty(
    cache: Option<Seq<(Seq<char>, Seq<char>)>>,
    raw: Seq<char>,
    device_type: DeviceType,
)
    requires
        descriptions_nonempty(cache),
    ensures
        friendly_name(cache, raw, device_type).len() > 0,
{
    reveal_strlit("Unknown Input Device");
    reveal_strlit("Unknown Output Device");
    reveal_strlit("Monitor of ");
    lemma_pattern_name_nonempty(raw);
    match cache {
        Some(es) => {
            let m = entries_map(es);
            if m.contains_key(raw) {
                lemma_entries_map_value(es, raw);
            }
            if device_type == DeviceType::Output && contains(raw, "monitor"@) {
                match card_name(raw, true) {
                    Some(card) => {
                        lemma_first_entry_in_range(es, sink_of_card(card, true), 0);
                        lemma_first_entry_in_range(es, sink_of_card(card, false), 0);
                    },
                    None => {},
                }
            } else {
                match card_name(raw, false) {
                    Some(card) => {
                        lemma_first_entry_in_range(es, device_of_card(card, device_type), 0);
                    },
                    None => {},
                }
            }
            lemma_first_known_in_map(m, name_variants(raw, device_type), 0);
            match first_known_from(m, name_variants(raw, device_type), 0) {
                Some(d) => {
                    let k = choose|k: Seq<char>| m.contains_key(k) && #[trigger] m[k] == d;
                    lemma_entries_map_value(es, k);
                },
                None => {},
            }
        },
        None => {},
    }
}

/// The entry that `first_entry_from` finds satisfies the predicate.
proof fn lemma_first_entry_satisfies(
    es: Seq<(Seq<char>, Seq<char>)>,
    pred: spec_fn((Seq<char>, Seq<char>)) -> bool,
    i: int,
)
    ensures
        first_entry_from(es, pred, i) matches Some(k) ==> 0 <= k < es.len() && pred(es[k]),
    decreases es.len() - i,
{
    if 0 <= i < es.len() && !pred(es[i]) {
        lemma_first_entry_satisfies(es, pred, i + 1);
    }
}

/// A description found by card name belongs to a device of the requested
/// kind that mentions the card (ignoring case): for an input, an entry named
/// `alsa_input.…`; for an output that is not a monitor, an entry named
/// `alsa_output.…`; for a monitor, an `alsa_output.…` entry (a monitor source,
/// or the sink whose description is then prefixed with `Monitor of `).
pub proof fn lemma_card_match_has_requested_kind(
    es: Seq<(Seq<char>, Seq<char>)>,
    raw: Seq<char>,
    device_type: DeviceType,
)
    ensures
        (card_match(es, raw, device_type) is Some && device_type == DeviceType::Input) ==> exists|i: int|
            0 <= i < es.len() && starts_with(#[trigger] es[i].0, "alsa_input."@) && es[i].1 == card_match(
                es,
                raw,
                device_type,
            )->0 && card_name(raw, false) is Some && mentions_card(es[i].0, card_name(raw, false)->0),
        (card_match(es, raw, device_type) is Some && device_type == DeviceType::Output && !contains(raw, "monitor"@))
            ==> exists|i: int|
            0 <= i < es.len() && starts_with(#[trigger] es[i].0, "alsa_output."@) && es[i].1 == card_match(
                es,
                raw,
                device_type,
            )->0 && card_name(raw, false) is Some && mentions_card(es[i].0, card_name(raw, false)->0),
        (card_match(es, raw, device_type) is Some && device_type == DeviceType::Output && contains(raw, "monitor"@))
            ==> exists|i: int|
            0 <= i < es.len() && starts_with(#[trigger] es[i].0, "alsa_output."@) && (es[i].1 == card_match(
                es,
                raw,
                device_type,
            )->0 || "Monitor of "@ + es[i].1 == card_match(es, raw, device_type)->0),
{
    if card_match(es, raw, device_type) is Some {
        if device_type == DeviceType::Output && contains(raw, "monitor"@) {
            let card = card_name(raw, true)->0;
            lemma_first_entry_satisfies(es, sink_of_card(card, true), 0);
            lemma_first_entry_satisfies(es, sink_of_card(card, false), 0);
            match first_entry(es, sink_of_card(card, true)) {
                Some(i) => {
                    assert(starts_with(es[i].0, "alsa_output."@));
                },
                None => {
                    let i = first_entry(es, sink_of_card(card, false))->0;
                    assert(starts_with(es[i].0, "alsa_output."@));
                },
            }
        } else {
            let card = card_name(raw, false)->0;
            lemma_first_entry_satisfies(es, device_of_card(card, device_type), 0);
            let i = first_entry(es, device_of_card(card, device_type))->0;
            assert(starts_with(es[i].0, type_prefix(device_type)));
            assert(mentions_card(es[i].0, card));
        }
    }
}

} // verus!
