//! Pattern-based parsing of raw audio device names.
//!
//! Raw names come from ALSA (`hw:CARD=PCH,DEV=0`, `hw:1`) or PulseAudio /
//! PipeWire (`alsa_input.pci-0000_00_1f.3.analog-stereo`,
//! `alsa_output.usb-Logitech_USB_Headset-00.analog-stereo`, `*.monitor`).
//! Each parser returns the parts of a human-readable name, or `None` when the
//! name does not have its shape.

use vstd::prelude::*;
use crate::text::{
    opt_view,
    append_chars, capitalize, capitalize_all, capitalize_chars, capitalize_each, chars_of,
    concat_chars, contains, contains_chars, ends_with, ends_with_chars, eq_str, join, join_chars,
    lowercase_of, replace_char, replace_chars, seqs, slice_chars, split_chars, split_on,
    split_words, starts_with, starts_with_chars, lowercase, string_of, trim_end_matches,
    trim_end_matches_chars, words, all_ascii, ascii_upper, no_whitespace, unicode_whitespace, upper_of,
    lemma_join_chars, lemma_join_concat, lemma_join_split_is_replace, lemma_split_at_sep, lemma_join_empty, lemma_split_first_replace, lemma_words_empty, lemma_split_first_chars, lemma_split_without_sep, lemma_words_chars,
    lemma_words_nonempty, lemma_words_of_join, lemma_words_space_sep,
};

verus! {

/// What `regex::Regex::captures` returns for `text` under `pattern`: `None` when
/// the pattern does not match (or does not compile), otherwise every capture
/// group in order, group 0 first, `None` for a group that took no part.
pub uninterp spec fn regex_captures(pattern: Seq<char>, text: Seq<char>) -> Option<Seq<Option<Seq<char>>>>;

/// The captures as plain values.
pub open spec fn captures_view(c: Option<Vec<Option<String>>>) -> Option<Seq<Option<Seq<char>>>> {
    match c {
        Some(v) => Some(v@.map_values(|g: Option<String>| match g {
            Some(s) => Some(s@),
            None => None,
        })),
        None => None,
    }
}

/// `regex::Regex::new(pattern)` and then `Regex::captures(text)`, with each group
/// turned into an owned string. The result is only named (`regex_captures`).
#[verifier::external_body]
fn captures_of(pattern: &str, text: &str) -> (r: Option<Vec<Option<String>>>)
    ensures
        captures_view(r) == regex_captures(pattern@, text@),
{
    match regex::Regex::new(pattern) {
        Ok(re) => re.captures(text).map(
            |caps| caps.iter().map(|m| m.map(|m| m.as_str().to_string())).collect(),
        ),
        Err(_) => None,
    }
}

/// The pattern of an ALSA card device name.
pub open spec fn hw_card_pattern() -> Seq<char> {
    "^hw:CARD=([^,]+),DEV=(\\d+)$"@
}

/// The pattern of a simple ALSA device name.
pub open spec fn hw_simple_pattern() -> Seq<char> {
    "^hw:(\\d+)$"@
}

/// The pattern of a USB PulseAudio device name.
pub open spec fn usb_pattern() -> Seq<char> {
    "alsa_(?:input|output)\\.usb-([^-]+)-\\d+\\.(.+)$"@
}

/// Group `i` of a match, when it took part.
pub open spec fn group(c: Seq<Option<Seq<char>>>, i: int) -> Option<Seq<char>> {
    if 0 <= i < c.len() {
        c[i]
    } else {
        None
    }
}

/// The friendly name built from the captures of `hw:CARD=<card>,DEV=<n>`.
pub open spec fn hw_card_name(caps: Option<Seq<Option<Seq<char>>>>) -> Option<Seq<char>> {
    match caps {
        Some(c) => match (group(c, 1), group(c, 2)) {
            (Some(card), Some(dev)) => Some("Hardware: "@ + card + " (Device "@ + dev + ")"@),
            _ => None,
        },
        None => None,
    }
}

/// The friendly name built from the captures of `hw:<n>`.
pub open spec fn hw_simple_name(caps: Option<Seq<Option<Seq<char>>>>) -> Option<Seq<char>> {
    match caps {
        Some(c) => match group(c, 1) {
            Some(dev) => Some("Hardware Device "@ + dev),
            None => None,
        },
        None => None,
    }
}

/// The text with `'-'` and `'_'` turned into spaces, split into words.
pub open spec fn spaced_words(s: Seq<char>) -> Seq<Seq<char>> {
    words(replace_char(replace_char(s, '-', ' '), '_', ' '))
}

/// One word of a profile name: known acronyms in their usual spelling, any
/// other word capitalized.
pub open spec fn profile_word(w: Seq<char>) -> Seq<char> {
    let l = lowercase(w);
    if l == "hdmi"@ {
        "HDMI"@
    } else if l == "usb"@ {
        "USB"@
    } else if l == "iec958"@ {
        "IEC958"@
    } else if l == "spdif"@ {
        "S/PDIF"@
    } else {
        capitalize(w)
    }
}

/// A profile name such as `analog-stereo` made readable (`Analog Stereo`).
pub open spec fn format_profile_spec(p: Seq<char>) -> Seq<char> {
    join(spaced_words(p).map_values(|w: Seq<char>| profile_word(w)), " "@)
}

/// A raw name made readable: `'_'` and `'-'` turned into spaces, everything from
/// the first `'.'` on dropped, and each word capitalized.
pub open spec fn cleanup_spec(raw: Seq<char>) -> Seq<char> {
    let spaced = replace_char(replace_char(raw, '_', ' '), '-', ' ');
    join(capitalize_all(words(split_on(spaced, '.')[0])), " "@)
}

/// A built-in (PCI) PulseAudio device: vendor, device type and profile.
pub open spec fn alsa_plugin_spec(raw: Seq<char>) -> Option<(Seq<char>, Seq<char>, Seq<char>)> {
    if contains(raw, ".pci-"@) {
        let device_type = if starts_with(raw, "alsa_input"@) {
            "Microphone"@
        } else {
            "Audio"@
        };
        Some(("Built-in"@, device_type, format_profile_spec(split_on(raw, '.').last())))
    } else {
        None
    }
}

/// A monitor source: the name of the device it monitors, marked as system audio.
pub open spec fn monitor_spec(raw: Seq<char>) -> Option<Seq<char>> {
    if !ends_with(raw, ".monitor"@) {
        None
    } else {
        let base = trim_end_matches(raw, ".monitor"@);
        match alsa_plugin_spec(base) {
            Some((vendor, device_type, profile)) => Some(
                vendor + " "@ + device_type + " "@ + profile + " (System Audio)"@,
            ),
            None => Some(cleanup_spec(base) + " (System Audio)"@),
        }
    }
}

/// Vendor and model from the device part of a USB name: the text before the
/// first `'_'` and the remaining parts joined by spaces, or no vendor when there
/// is no `'_'`.
pub open spec fn usb_vendor_model(info: Seq<char>) -> (Seq<char>, Seq<char>) {
    let parts = split_on(info, '_');
    if parts.len() >= 2 {
        (parts[0], join(parts.skip(1), " "@))
    } else {
        (seq![], replace_char(info, '_', ' '))
    }
}

/// Vendor, model and profile built from the captures of a USB device name.
pub open spec fn usb_info(caps: Option<Seq<Option<Seq<char>>>>) -> Option<(Seq<char>, Seq<char>, Seq<char>)> {
    match caps {
        Some(c) => match (group(c, 1), group(c, 2)) {
            (Some(info), Some(profile)) => Some(
                (usb_vendor_model(info).0, usb_vendor_model(info).1, format_profile_spec(profile)),
            ),
            _ => None,
        },
        None => None,
    }
}

/// The three parts as plain values.
pub open spec fn triple_view(t: Option<(String, String, String)>) -> Option<(Seq<char>, Seq<char>, Seq<char>)> {
    match t {
        Some((a, b, c)) => Some((a@, b@, c@)),
        None => None,
    }
}


/// Group `i` of the captures, when it took part.
fn group_of(caps: &Vec<Option<String>>, i: usize) -> (r: Option<Vec<char>>)
    ensures
        match r {
            Some(v) => group(captures_view(Some(*caps))->0, i as int) == Some(v@),
            None => group(captures_view(Some(*caps))->0, i as int) is None,
        },
{
    if i < caps.len() {
        match &caps[i] {
            Some(s) => Some(chars_of(s.as_str())),
            None => None,
        }
    } else {
        None
    }
}

/// The friendly name of `hw:CARD=<card>,DEV=<n>` from the captures of its pattern.
pub fn hw_card_from_captures(caps: Option<Vec<Option<String>>>) -> (r: Option<String>)
    ensures
        opt_view(r) == hw_card_name(captures_view(caps)),
{
    match caps {
        Some(c) => match (group_of(&c, 1), group_of(&c, 2)) {
            (Some(card), Some(dev)) => {
                let mut out = chars_of("Hardware: ");
                append_chars(&mut out, &card);
                let mid = chars_of(" (Device ");
                append_chars(&mut out, &mid);
                append_chars(&mut out, &dev);
                let close = chars_of(")");
                append_chars(&mut out, &close);
                Some(string_of(&out))
            },
            _ => None,
        },
        None => None,
    }
}

/// Parses an ALSA card device name (`hw:CARD=<card>,DEV=<n>`).
///
/// `hw:CARD=PCH,DEV=0` gives `Hardware: PCH (Device 0)`; `hw:0` gives `None`.
pub fn parse_hw_card(raw_name: &str) -> (r: Option<String>)
    ensures
        opt_view(r) == hw_card_name(regex_captures(hw_card_pattern(), raw_name@)),
{
    let caps = captures_of("^hw:CARD=([^,]+),DEV=(\\d+)$", raw_name);
    hw_card_from_captures(caps)
}

/// The friendly name of `hw:<n>` from the captures of its pattern.
pub fn hw_simple_from_captures(caps: Option<Vec<Option<String>>>) -> (r: Option<String>)
    ensures
        opt_view(r) == hw_simple_name(captures_view(caps)),
{
    match caps {
        Some(c) => match group_of(&c, 1) {
            Some(dev) => {
                let out = concat_chars(&chars_of("Hardware Device "), &dev);
                Some(string_of(&out))
            },
            None => None,
        },
        None => None,
    }
}

/// Parses a simple ALSA device name (`hw:<n>`): `hw:1` gives `Hardware Device 1`.
pub fn parse_hw_simple(raw_name: &str) -> (r: Option<String>)
    ensures
        opt_view(r) == hw_simple_name(regex_captures(hw_simple_pattern(), raw_name@)),
{
    let caps = captures_of("^hw:(\\d+)$", raw_name);
    hw_simple_from_captures(caps)
}

/// One profile word, with the known acronyms spelled as usual.
fn profile_word_exec(w: &Vec<char>) -> (r: Vec<char>)
    ensures
        r@ == profile_word(w@),
{
    let l = lowercase_of(w);
    if eq_str(&l, "hdmi") {
        chars_of("HDMI")
    } else if eq_str(&l, "usb") {
        chars_of("USB")
    } else if eq_str(&l, "iec958") {
        chars_of("IEC958")
    } else if eq_str(&l, "spdif") {
        chars_of("S/PDIF")
    } else {
        capitalize_chars(w)
    }
}

/// Formats a profile name: `analog-stereo` gives `Analog Stereo`, `hdmi-stereo`
/// gives `HDMI Stereo`.
pub fn format_profile_chars(profile: &Vec<char>) -> (r: Vec<char>)
    ensures
        r@ == format_profile_spec(profile@),
{
    let a = replace_chars(profile, '-', ' ');
    let b = replace_chars(&a, '_', ' ');
    let ws = split_words(&b);
    let mut out: Vec<Vec<char>> = Vec::new();
    let mut i: usize = 0;
    let ghost wv = seqs(ws@);
    while i < ws.len()
        invariant
            i <= ws.len(),
            wv == seqs(ws@),
            seqs(out@) == wv.take(i as int).map_values(|w: Seq<char>| profile_word(w)),
        decreases ws.len() - i,
    {
        let pw = profile_word_exec(&ws[i]);
        let ghost o0 = out@;
        out.push(pw);
        assert(seqs(out@) =~= seqs(o0).push(pw@));
        assert(wv.take(i + 1).map_values(|w: Seq<char>| profile_word(w)) =~= wv.take(
            i as int,
        ).map_values(|w: Seq<char>| profile_word(w)).push(profile_word(wv[i as int])));
        i = i + 1;
    }
    assert(wv.take(ws.len() as int) == wv);
    let space = chars_of(" ");
    join_chars(&out, &space)
}

/// Formats a profile name: `analog-stereo` gives `Analog Stereo`, `hdmi-stereo`
/// gives `HDMI Stereo`, `iec958-stereo` gives `IEC958 Stereo`.
pub fn format_profile(profile: &str) -> (r: String)
    ensures
        r@ == format_profile_spec(profile@),
{
    let p = chars_of(profile);
    string_of(&format_profile_chars(&p))
}

/// Cleans up a raw name: `some_device_name` gives `Some Device Name`,
/// `alsa_output.pci-0000` gives `Alsa Output`.
pub fn cleanup_name_chars(raw: &Vec<char>) -> (r: Vec<char>)
    ensures
        r@ == cleanup_spec(raw@),
{
    let a = replace_chars(raw, '_', ' ');
    let b = replace_chars(&a, '-', ' ');
    let pieces = split_chars(&b, '.');
    let ws = split_words(&pieces[0]);
    let caps = capitalize_each(&ws);
    let space = chars_of(" ");
    join_chars(&caps, &space)
}

/// Cleans up a raw name: `alsa_input` gives `Alsa Input`, `pulse` gives `Pulse`.
pub fn cleanup_name(raw_name: &str) -> (r: String)
    ensures
        r@ == cleanup_spec(raw_name@),
{
    let raw = chars_of(raw_name);
    string_of(&cleanup_name_chars(&raw))
}

/// Parses a built-in PulseAudio device name into vendor, device type and profile.
fn parse_alsa_plugin_chars(raw: &Vec<char>) -> (r: Option<(Vec<char>, Vec<char>, Vec<char>)>)
    ensures
        match r {
            Some((a, b, c)) => alsa_plugin_spec(raw@) == Some((a@, b@, c@)),
            None => alsa_plugin_spec(raw@) is None,
        },
{
    let pci = chars_of(".pci-");
    if contains_chars(raw, &pci) {
        let input = chars_of("alsa_input");
        let device_type = if starts_with_chars(raw, &input) {
            chars_of("Microphone")
        } else {
            chars_of("Audio")
        };
        let pieces = split_chars(raw, '.');
        let profile = format_profile_chars(&pieces[pieces.len() - 1]);
        Some((chars_of("Built-in"), device_type, profile))
    } else {
        None
    }
}

/// Parses a built-in PulseAudio device name (`alsa_input.pci-…` / `alsa_output.pci-…`).
///
/// `alsa_input.pci-0000_00_1f.3.analog-stereo` gives
/// `("Built-in", "Microphone", "Analog Stereo")`; USB devices give `None`.
pub fn parse_alsa_plugin(raw_name: &str) -> (r: Option<(String, String, String)>)
    ensures
        triple_view(r) == alsa_plugin_spec(raw_name@),
{
    let raw = chars_of(raw_name);
    match parse_alsa_plugin_chars(&raw) {
        Some((a, b, c)) => Some((string_of(&a), string_of(&b), string_of(&c))),
        None => None,
    }
}

/// Parses a monitor source name (`….monitor`).
///
/// `alsa_output.pci-0000_00_1f.3.analog-stereo.monitor` gives
/// `Built-in Audio Analog Stereo (System Audio)`; `some_device.monitor` gives
/// `Some Device (System Audio)`.
pub fn parse_monitor_chars(raw: &Vec<char>) -> (r: Option<Vec<char>>)
    ensures
        match r {
            Some(v) => monitor_spec(raw@) == Some(v@),
            None => monitor_spec(raw@) is None,
        },
{
    let suffix = chars_of(".monitor");
    if !ends_with_chars(raw, &suffix) {
        return None;
    }
    let base = trim_end_matches_chars(raw, &suffix);
    let tail = chars_of(" (System Audio)");
    match parse_alsa_plugin_chars(&base) {
        Some((vendor, device_type, profile)) => {
            let mut out = vendor;
            let space = chars_of(" ");
            append_chars(&mut out, &space);
            append_chars(&mut out, &device_type);
            append_chars(&mut out, &space);
            append_chars(&mut out, &profile);
            append_chars(&mut out, &tail);
            Some(out)
        },
        None => {
            let cleaned = cleanup_name_chars(&base);
            Some(concat_chars(&cleaned, &tail))
        },
    }
}

/// Parses a monitor source name (`….monitor`); `not_a_monitor` gives `None`.
pub fn parse_monitor(raw_name: &str) -> (r: Option<String>)
    ensures
        opt_view(r) == monitor_spec(raw_name@),
{
    let raw = chars_of(raw_name);
    match parse_monitor_chars(&raw) {
        Some(v) => Some(string_of(&v)),
        None => None,
    }
}

/// Vendor and model from the device part of a USB name.
fn usb_vendor_model_exec(info: &Vec<char>) -> (r: (Vec<char>, Vec<char>))
    ensures
        (r.0@, r.1@) == usb_vendor_model(info@),
{
    let parts = split_chars(info, '_');
    if parts.len() >= 2 {
        let mut rest: Vec<Vec<char>> = Vec::new();
        let mut i: usize = 1;
        let ghost pv = seqs(parts@);
        while i < parts.len()
            invariant
                1 <= i <= parts.len(),
                pv == seqs(parts@),
                seqs(rest@) == pv.subrange(1, i as int),
            decreases parts.len() - i,
        {
            let piece = slice_chars(&parts[i], 0, parts[i].len());
            assert(parts@[i as int]@.subrange(0, parts@[i as int]@.len() as int) == parts@[i as int]@);
            let ghost r0 = rest@;
            rest.push(piece);
            assert(seqs(rest@) =~= seqs(r0).push(piece@));
            assert(pv.subrange(1, i + 1) =~= pv.subrange(1, i as int).push(pv[i as int]));
            i = i + 1;
        }
        assert(pv.subrange(1, pv.len() as int) == pv.skip(1));
        let vendor = slice_chars(&parts[0], 0, parts[0].len());
        assert(parts@[0]@.subrange(0, parts@[0]@.len() as int) == parts@[0]@);
        let space = chars_of(" ");
        (vendor, join_chars(&rest, &space))
    } else {
        (Vec::new(), replace_chars(info, '_', ' '))
    }
}

/// Vendor, model and profile from the captures of the USB device pattern.
pub fn usb_info_from_captures(caps: Option<Vec<Option<String>>>) -> (r: Option<(String, String, String)>)
    ensures
        triple_view(r) == usb_info(captures_view(caps)),
{
    match caps {
        Some(c) => match (group_of(&c, 1), group_of(&c, 2)) {
            (Some(info), Some(profile)) => {
                let (vendor, model) = usb_vendor_model_exec(&info);
                let formatted = format_profile_chars(&profile);
                Some((string_of(&vendor), string_of(&model), string_of(&formatted)))
            },
            _ => None,
        },
        None => None,
    }
}

/// Extracts vendor, model and profile of a USB PulseAudio device.
///
/// `alsa_output.usb-Logitech_USB_Headset-00.analog-stereo` gives
/// `("Logitech", "USB Headset", "Analog Stereo")`; built-in devices give `None`.
pub fn extract_usb_info(raw_name: &str) -> (r: Option<(String, String, String)>)
    ensures
        triple_view(r) == usb_info(regex_captures(usb_pattern(), raw_name@)),
{
    let caps = captures_of("alsa_(?:input|output)\\.usb-([^-]+)-\\d+\\.(.+)$", raw_name);
    usb_info_from_captures(caps)
}

/// A character of a profile word: not whitespace, `'-'` or `'_'`.
pub open spec fn profile_char(c: char) -> bool {
    !unicode_whitespace(c) && c != '-' && c != '_'
}

/// `replace_char` of a concatenation is the concatenation of the parts'.
proof fn lemma_replace_concat(x: Seq<char>, y: Seq<char>, from: char, to: char)
    ensures
        replace_char(x + y, from, to) == replace_char(x, from, to) + replace_char(y, from, to),
{
    assert(replace_char(x + y, from, to) =~= replace_char(x, from, to) + replace_char(y, from, to));
}

/// Profile names are formatted word by word: formatting `a-b` gives the
/// formatting of `a`, a space, and the formatting of `b`, when each side has a
/// character that is not whitespace, `'-'` or `'_'` (here `a[i]` and `b[j]`).
pub proof fn lemma_format_profile_splits_at_dash(a: Seq<char>, b: Seq<char>, i: int, j: int)
    requires
        0 <= i < a.len(),
        profile_char(a[i]),
        0 <= j < b.len(),
        profile_char(b[j]),
    ensures
        format_profile_spec(a + "-"@ + b) == format_profile_spec(a) + " "@ + format_profile_spec(b),
{
    reveal_strlit("-");
    reveal_strlit(" ");
    let ra = replace_char(replace_char(a, '-', ' '), '_', ' ');
    let rb = replace_char(replace_char(b, '-', ' '), '_', ' ');
    lemma_replace_concat(a + "-"@, b, '-', ' ');
    lemma_replace_concat(a, "-"@, '-', ' ');
    let r1 = replace_char(a, '-', ' ') + seq![' '] + replace_char(b, '-', ' ');
    assert(replace_char(a + "-"@ + b, '-', ' ') =~= r1);
    lemma_replace_concat(replace_char(a, '-', ' ') + seq![' '], replace_char(b, '-', ' '), '_', ' ');
    lemma_replace_concat(replace_char(a, '-', ' '), seq![' '], '_', ' ');
    assert(replace_char(r1, '_', ' ') =~= ra + seq![' '] + rb);
    lemma_words_space_sep(ra, rb);
    assert(ra[i] == a[i]);
    assert(rb[j] == b[j]);
    lemma_words_nonempty(ra, i);
    lemma_words_nonempty(rb, j);
    let wa = words(ra).map_values(|w: Seq<char>| profile_word(w));
    let wb = words(rb).map_values(|w: Seq<char>| profile_word(w));
    assert((words(ra) + words(rb)).map_values(|w: Seq<char>| profile_word(w)) =~= wa + wb);
    lemma_join_concat(wa, wb, " "@);
}

/// A character that a cleaned-up ASCII name may hold: ASCII, and none of
/// `'_'`, `'-'` or `'.'`.
pub open spec fn clean_char(c: char) -> bool {
    c != '_' && c != '-' && c != '.' && (c as u32) < 128
}

/// The words of a cleaned-up name, capitalized.
spec fn cleanup_words(raw: Seq<char>) -> Seq<Seq<char>> {
    capitalize_all(words(split_on(replace_char(replace_char(raw, '_', ' '), '-', ' '), '.')[0]))
}

/// The capitalized words of an ASCII name are non-empty, have no whitespace,
/// hold only clean characters, and capitalizing them again changes nothing.
proof fn lemma_cleanup_words(raw: Seq<char>)
    requires
        all_ascii(raw),
    ensures
        forall|k: int| 0 <= k < cleanup_words(raw).len() ==> (#[trigger] cleanup_words(raw)[k]).len() > 0
            && no_whitespace(cleanup_words(raw)[k]) && capitalize(cleanup_words(raw)[k]) == cleanup_words(raw)[k]
            && forall|j: int| 0 <= j < cleanup_words(raw)[k].len() ==> clean_char(#[trigger] cleanup_words(raw)[k][j]),
        capitalize_all(cleanup_words(raw)) == cleanup_words(raw),
{
    let spaced = replace_char(replace_char(raw, '_', ' '), '-', ' ');
    let p1 = |c: char| c != '_' && c != '-' && (c as u32) < 128;
    assert forall|i: int| 0 <= i < spaced.len() implies p1(#[trigger] spaced[i]) by {
        assert((raw[i] as u32) < 128);
    }
    lemma_split_first_chars(spaced, '.', p1);
    let piece = split_on(spaced, '.')[0];
    assert forall|i: int| 0 <= i < piece.len() && !unicode_whitespace(#[trigger] piece[i]) implies clean_char(
        piece[i],
    ) by {
        assert(piece[i] != '.' && p1(piece[i]));
    }
    lemma_words_chars(piece, |c: char| clean_char(c));
    let ws = words(piece);
    let cw = cleanup_words(raw);
    assert forall|k: int| 0 <= k < cw.len() implies (#[trigger] cw[k]).len() > 0 && no_whitespace(cw[k])
        && capitalize(cw[k]) == cw[k] && forall|j: int| 0 <= j < cw[k].len() ==> clean_char(#[trigger] cw[k][j]) by {
        let w = ws[k];
        assert(w.len() > 0 && no_whitespace(w));
        assert(clean_char(w[0]));
        let u = ascii_upper(w[0]);
        assert(cw[k] == capitalize(w));
        assert(upper_of(w[0]) == seq![u]);
        assert(cw[k] =~= seq![u] + w.drop_first());
        assert(clean_char(u) && !unicode_whitespace(u));
        assert forall|j: int| 0 <= j < cw[k].len() implies clean_char(#[trigger] cw[k][j]) && !unicode_whitespace(
            cw[k][j],
        ) by {
            if j > 0 {
                assert(cw[k][j] == w[j]);
            }
        }
        assert(cw[k][0] == u);
        assert(ascii_upper(u) == u);
        assert(upper_of(u) == seq![u]);
        assert(capitalize(cw[k]) =~= cw[k]);
    }
    assert(capitalize_all(cw) =~= cw);
}

/// Cleaning up an ASCII name gives text of clean characters that is its own
/// words joined by single spaces (so it has no leading, trailing or doubled
/// spaces), and cleaning it up again changes nothing.
pub proof fn lemma_cleanup_name_is_clean(raw: Seq<char>)
    requires
        all_ascii(raw),
    ensures
        forall|i: int| 0 <= i < cleanup_spec(raw).len() ==> clean_char(#[trigger] cleanup_spec(raw)[i]),
        join(words(cleanup_spec(raw)), " "@) == cleanup_spec(raw),
        cleanup_spec(cleanup_spec(raw)) == cleanup_spec(raw),
        cleanup_spec(raw).len() == 0 <==> forall|i: int| 0 <= i < split_on(raw, '.')[0].len() ==> {
            let c = #[trigger] split_on(raw, '.')[0][i];
            unicode_whitespace(c) || c == '_' || c == '-'
        },
{
    reveal_strlit(" ");
    assert(" "@ =~= seq![' ']);
    let cw = cleanup_words(raw);
    lemma_cleanup_words(raw);
    let r = cleanup_spec(raw);
    assert(r == join(cw, seq![' ']));
    lemma_join_chars(cw, seq![' '], |c: char| clean_char(c));
    lemma_words_of_join(cw);
    assert(replace_char(r, '_', ' ') =~= r);
    assert(replace_char(replace_char(r, '_', ' '), '-', ' ') =~= r);
    assert forall|i: int| 0 <= i < r.len() implies #[trigger] r[i] != '.' by {
        assert(clean_char(r[i]));
    }
    lemma_split_without_sep(r, '.');
    assert(cleanup_words(r) == capitalize_all(cw));
    // The result is empty exactly when the first piece has only spaces, '_' and '-'.
    let first = split_on(raw, '.')[0];
    lemma_split_first_replace(raw, '_', ' ', '.');
    lemma_split_first_replace(replace_char(raw, '_', ' '), '-', ' ', '.');
    let piece = split_on(replace_char(replace_char(raw, '_', ' '), '-', ' '), '.')[0];
    assert(piece == replace_char(replace_char(first, '_', ' '), '-', ' '));
    lemma_words_empty(piece);
    lemma_join_empty(cw, seq![' ']);
    assert((forall|i: int| 0 <= i < piece.len() ==> unicode_whitespace(#[trigger] piece[i])) <==> (forall|i: int|
        0 <= i < first.len() ==> {
            let c = #[trigger] first[i];
            unicode_whitespace(c) || c == '_' || c == '-'
        })) by {
        assert(piece.len() == first.len());
        assert forall|i: int| 0 <= i < first.len() implies (unicode_whitespace(#[trigger] piece[i]) <==> {
            let c = first[i];
            unicode_whitespace(c) || c == '_' || c == '-'
        }) by {
            assert(unicode_whitespace(' '));
            assert(replace_char(first, '_', ' ')[i] == if first[i] == '_' { ' ' } else { first[i] });
        }
        if forall|i: int| 0 <= i < piece.len() ==> unicode_whitespace(#[trigger] piece[i]) {
            assert forall|i: int| 0 <= i < first.len() implies {
                let c = #[trigger] first[i];
                unicode_whitespace(c) || c == '_' || c == '-'
            } by {
                assert(unicode_whitespace(piece[i]));
            }
        }
        if forall|i: int| 0 <= i < first.len() ==> {
            let c = #[trigger] first[i];
            unicode_whitespace(c) || c == '_' || c == '-'
        } {
            assert forall|i: int| 0 <= i < piece.len() implies unicode_whitespace(#[trigger] piece[i]) by {
                let c = first[i];
                assert(unicode_whitespace(c) || c == '_' || c == '-');
            }
        }
    }
}

/// How the device part of a USB name splits into vendor and model: without
/// `'_'` the vendor is empty and the model is the whole device part (so a
/// non-empty device part gives a non-empty model); with `'_'` the vendor is
/// the text before the first `'_'` and the vendor, a space and the model
/// together are the device part with every `'_'` turned into a space.
pub proof fn lemma_usb_vendor_model(info: Seq<char>)
    ensures
        (forall|i: int| 0 <= i < info.len() ==> #[trigger] info[i] != '_') ==> usb_vendor_model(info).0.len() == 0
            && usb_vendor_model(info).1 == info,
        (exists|i: int| 0 <= i < info.len() && #[trigger] info[i] == '_') ==> (forall|j: int|
            0 <= j < usb_vendor_model(info).0.len() ==> #[trigger] usb_vendor_model(info).0[j] != '_')
            && usb_vendor_model(info).0 + seq![' '] + usb_vendor_model(info).1 == replace_char(info, '_', ' '),
{
    reveal_strlit(" ");
    assert(" "@ =~= seq![' ']);
    let parts = split_on(info, '_');
    if forall|i: int| 0 <= i < info.len() ==> #[trigger] info[i] != '_' {
        lemma_split_without_sep(info, '_');
        assert(parts =~= seq![info]);
        assert(replace_char(info, '_', ' ') =~= info);
    } else {
        let i = choose|i: int| 0 <= i < info.len() && #[trigger] info[i] == '_';
        lemma_split_at_sep(info, '_', i);
        lemma_split_first_chars(info, '_', |c: char| true);
        lemma_join_split_is_replace(info, '_');
        assert(parts =~= seq![parts[0]] + parts.skip(1));
        lemma_join_concat(seq![parts[0]], parts.skip(1), seq![' ']);
        assert(join(seq![parts[0]], seq![' ']) == parts[0]);
    }
}

} // verus!
