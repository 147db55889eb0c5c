//! Device descriptions reported by PulseAudio / PipeWire (`pactl list …`).
//!
//! Running `pactl` is left to the caller; this module parses its output and
//! keeps the name → description table that friendly names are looked up in.

use vstd::prelude::*;
use crate::text::{
    chars_of, concat_chars, concat_str, eq_str, ends_with, lines, lines_of, seqs, slice_chars,
    starts_with, starts_with_chars, string_of, trim, trim_chars,
};

verus! {

/// The entries of a table as plain values.
pub open spec fn entry_view(e: (String, String)) -> (Seq<char>, Seq<char>) {
    (e.0@, e.1@)
}

/// No name occurs twice among the entries.
pub open spec fn keys_distinct(es: Seq<(Seq<char>, Seq<char>)>) -> bool {
    forall|i: int, j: int| 0 <= i < j < es.len() ==> es[i].0 != es[j].0
}

/// The name → description map that the entries make.
pub open spec fn entries_map(es: Seq<(Seq<char>, Seq<char>)>) -> Map<Seq<char>, Seq<char>>
    decreases es.len(),
{
    if es.len() == 0 {
        Map::empty()
    } else {
        entries_map(es.drop_last()).insert(es.last().0, es.last().1)
    }
}

/// A name is in the map exactly when some entry has it, and with distinct names
/// its description is that entry's.
pub proof fn lemma_entries_map(es: Seq<(Seq<char>, Seq<char>)>)
    ensures
        forall|k: Seq<char>| #[trigger]
            entries_map(es).contains_key(k) <==> exists|i: int| 0 <= i < es.len() && es[i].0 == k,
        keys_distinct(es) ==> forall|i: int|
            0 <= i < es.len() ==> #[trigger] entries_map(es)[es[i].0] == es[i].1,
        entries_map(es).dom().finite(),
        keys_distinct(es) ==> entries_map(es).len() == es.len(),
    decreases es.len(),
{
    if es.len() > 0 {
        let d = es.drop_last();
        lemma_entries_map(d);
        assert forall|k: Seq<char>| #[trigger]
            entries_map(es).contains_key(k) <==> exists|i: int| 0 <= i < es.len() && es[i].0 == k by {
            if entries_map(es).contains_key(k) && k != es.last().0 {
                let i = choose|i: int| 0 <= i < d.len() && d[i].0 == k;
                assert(es[i].0 == k);
            }
            if exists|i: int| 0 <= i < es.len() && es[i].0 == k {
                let i = choose|i: int| 0 <= i < es.len() && es[i].0 == k;
                if i < d.len() {
                    assert(d[i].0 == k);
                }
            }
        }
        if keys_distinct(es) {
            assert(keys_distinct(d));
            assert forall|i: int| 0 <= i < es.len() implies #[trigger] entries_map(es)[es[i].0]
                == es[i].1 by {
                if i < d.len() {
                    assert(d[i].0 == es[i].0);
                }
            }
            assert(!entries_map(d).contains_key(es.last().0)) by {
                if entries_map(d).contains_key(es.last().0) {
                    let i = choose|i: int| 0 <= i < d.len() && d[i].0 == es.last().0;
                    assert(es[i].0 == es[es.len() - 1].0);
                }
            }
        }
    }
}

/// Replacing the description of an existing name updates the map at that name.
pub proof fn lemma_entries_map_update(
    es: Seq<(Seq<char>, Seq<char>)>,
    i: int,
    k: Seq<char>,
    v: Seq<char>,
)
    requires
        keys_distinct(es),
        0 <= i < es.len(),
        es[i].0 == k,
    ensures
        entries_map(es.update(i, (k, v))) == entries_map(es).insert(k, v),
    decreases es.len(),
{
    let u = es.update(i, (k, v));
    if i == es.len() - 1 {
        assert(u.drop_last() == es.drop_last());
        lemma_entries_map(es.drop_last());
        assert(entries_map(u) =~= entries_map(es).insert(k, v));
    } else {
        let d = es.drop_last();
        assert(keys_distinct(d));
        lemma_entries_map_update(d, i, k, v);
        assert(u.drop_last() == d.update(i, (k, v)));
        assert(es.last().0 != k);
        assert(entries_map(u) =~= entries_map(es).insert(k, v));
    }
}

/// A name → description table with each name at most once, kept in the order
/// in which names were first added.
pub struct DeviceDescriptions {
    entries: Vec<(String, String)>,
}

impl DeviceDescriptions {
    /// The entries in order, as plain values.
    pub closed spec fn entries(&self) -> Seq<(Seq<char>, Seq<char>)> {
        self.entries@.map_values(|e: (String, String)| entry_view(e))
    }

    #[verifier::type_invariant]
    closed spec fn names_distinct(&self) -> bool {
        keys_distinct(self.entries())
    }

    /// An empty table.
    pub fn new() -> (r: Self)
        ensures
            r.entries() == Seq::<(Seq<char>, Seq<char>)>::empty(),
            r@ == Map::<Seq<char>, Seq<char>>::empty(),
    {
        let r = DeviceDescriptions { entries: Vec::new() };
        assert(r.entries() =~= Seq::<(Seq<char>, Seq<char>)>::empty());
        r
    }

    /// The number of names.
    pub fn len(&self) -> (n: usize)
        ensures
            n == self@.len(),
            n == self.entries().len(),
    {
        proof {
            use_type_invariant(self);
            lemma_entries_map(self.entries());
        }
        self.entries.len()
    }

    /// Whether the table is empty.
    pub fn is_empty(&self) -> (b: bool)
        ensures
            b == (self@.len() == 0),
    {
        self.len() == 0
    }

    /// The number of entries (the same as `len`).
    pub fn entry_count(&self) -> (n: usize)
        ensures
            n == self.entries().len(),
    {
        self.entries.len()
    }

    /// Each entry holds the description that the table gives its name.
    pub(crate) fn entries_agree(&self)
        ensures
            forall|i: int|
                0 <= i < self.entries().len() ==> self@.contains_key(#[trigger] self.entries()[i].0) && self@[self.entries()[i].0]
                    == self.entries()[i].1,
    {
        proof {
            use_type_invariant(self);
            lemma_entries_map(self.entries());
            assert forall|i: int| 0 <= i < self.entries().len() implies self@.contains_key(
                #[trigger] self.entries()[i].0,
            ) by {
                assert(self.entries()[i].0 == self.entries()[i].0);
            }
        }
    }

    /// The entry at position `i`.
    pub fn entry(&self, i: usize) -> (r: (&String, &String))
        requires
            i < self.entries().len(),
        ensures
            (r.0@, r.1@) == self.entries()[i as int],
    {
        let e = &self.entries[i];
        (&e.0, &e.1)
    }

    /// The position of the entry named `key`.
    fn position_of(&self, key: &Vec<char>) -> (r: Option<usize>)
        ensures
            match r {
                Some(i) => i < self.entries().len() && self.entries()[i as int].0 == key@,
                None => forall|i: int| 0 <= i < self.entries().len() ==> self.entries()[i].0 != key@,
            },
    {
        let mut i: usize = 0;
        while i < self.entries.len()
            invariant
                i <= self.entries().len(),
                self.entries().len() == self.entries@.len(),
                forall|j: int| 0 <= j < i ==> self.entries()[j].0 != key@,
            decreases self.entries@.len() - i,
        {
            let name = chars_of(self.entries[i].0.as_str());
            if crate::text::eq_chars(&name, key) {
                return Some(i);
            }
            i = i + 1;
        }
        None
    }

    /// The description of `key`, if the table has it (`HashMap::get`).
    pub fn get(&self, key: &str) -> (r: Option<&String>)
        ensures
            match r {
                Some(v) => self@.contains_key(key@) && self@[key@] == v@,
                None => !self@.contains_key(key@),
            },
    {
        proof {
            use_type_invariant(self);
            lemma_entries_map(self.entries());
        }
        let k = chars_of(key);
        match self.position_of(&k) {
            Some(i) => Some(&self.entries[i].1),
            None => None,
        }
    }

    /// Sets the description of `key` (`HashMap::insert`): a name already present
    /// keeps its position, a new name goes last.
    pub fn insert(&mut self, key: String, value: String)
        ensures
            final(self)@ == old(self)@.insert(key@, value@),
            old(self)@.contains_key(key@) ==> final(self).entries().len() == old(self).entries().len(),
            !old(self)@.contains_key(key@) ==> final(self).entries() == old(self).entries().push(
                (key@, value@),
            ),
    {
        proof {
            use_type_invariant(&*self);
            lemma_entries_map(self.entries());
        }
        let k = chars_of(key.as_str());
        let ghost es = self.entries();
        let pos = self.position_of(&k);
        let ghost kv = key@;
        let ghost vv = value@;
        let mut v: Vec<(String, String)> = Vec::new();
        std::mem::swap(&mut v, &mut self.entries);
        match pos {
            Some(i) => {
                v.set(i, (key, value));
                proof {
                    assert(v@.map_values(|e: (String, String)| entry_view(e)) =~= es.update(
                        i as int,
                        (kv, vv),
                    ));
                    lemma_entries_map_update(es, i as int, kv, vv);
                }
            },
            None => {
                v.push((key, value));
                proof {
                    assert(v@.map_values(|e: (String, String)| entry_view(e)) =~= es.push((kv, vv)));
                    assert(es.push((kv, vv)).drop_last() == es);
                }
            },
        }
        self.entries = v;
    }
}

impl View for DeviceDescriptions {
    type V = Map<Seq<char>, Seq<char>>;

    open spec fn view(&self) -> Map<Seq<char>, Seq<char>> {
        entries_map(self.entries())
    }
}

// ---------------------------------------------------------------------------
// Parsing `pactl list sources` / `pactl list sinks`
// ---------------------------------------------------------------------------

/// One line of `pactl` output: a `Name:` line remembers the name, and a
/// following `Description:` line records name → description.
pub open spec fn pactl_step(
    st: (Map<Seq<char>, Seq<char>>, Option<Seq<char>>),
    line: Seq<char>,
) -> (Map<Seq<char>, Seq<char>>, Option<Seq<char>>) {
    let t = trim(line);
    let name = if starts_with(t, "Name: "@) {
        Some(t.skip("Name: "@.len() as int))
    } else {
        st.1
    };
    if starts_with(t, "Description: "@) {
        match name {
            Some(n) => (st.0.insert(n, t.skip("Description: "@.len() as int)), None),
            None => (st.0, None),
        }
    } else {
        (st.0, name)
    }
}

/// The state after reading the given lines.
pub open spec fn pactl_fold(ls: Seq<Seq<char>>) -> (Map<Seq<char>, Seq<char>>, Option<Seq<char>>)
    decreases ls.len(),
{
    if ls.len() == 0 {
        (Map::empty(), None)
    } else {
        pactl_step(pactl_fold(ls.drop_last()), ls.last())
    }
}

/// The devices that a `pactl list` output describes.
pub open spec fn pactl_devices(output: Seq<char>) -> Map<Seq<char>, Seq<char>> {
    pactl_fold(lines(output)).0
}

/// Every description in the map is non-empty.
pub open spec fn values_nonempty(m: Map<Seq<char>, Seq<char>>) -> bool {
    forall|k: Seq<char>| #[trigger] m.contains_key(k) ==> m[k].len() > 0
}

/// Parses `pactl list sources` or `pactl list sinks` output into a table of
/// device name → description. A `Description:` line is paired with the last
/// `Name:` line before it that no other description took; text that fits
/// neither is skipped.
fn pactl_table(output: &str) -> (r: DeviceDescriptions)
    ensures
        r@ == pactl_devices(output@),
        values_nonempty(r@),
{
    let text = chars_of(output);
    let ls = lines_of(&text);
    let mut table = DeviceDescriptions::new();
    let space_is_blank = crate::text::is_whitespace(' ');
    proof {
        reveal_strlit("Description: ");
    }
    let mut current: Option<Vec<char>> = None;
    let ghost lv = seqs(ls@);
    let name_prefix = chars_of("Name: ");
    let desc_prefix = chars_of("Description: ");
    let mut i: usize = 0;
    while i < ls.len()
        invariant
            i <= ls.len(),
            lv == seqs(ls@),
            lv == lines(text@),
            text@ == output@,
            name_prefix@ == "Name: "@,
            desc_prefix@ == "Description: "@,
            crate::text::unicode_whitespace(' '),
            values_nonempty(table@),
            pactl_fold(lv.take(i as int)) == (table@, match current {
                Some(c) => Some(c@),
                None => None,
            }),
        decreases ls.len() - i,
    {
        assert(lv.take(i + 1).drop_last() == lv.take(i as int));
        let t = trim_chars(&ls[i]);
        if starts_with_chars(&t, &name_prefix) {
            current = Some(slice_chars(&t, name_prefix.len(), t.len()));
        }
        if starts_with_chars(&t, &desc_prefix) {
            let taken = current;
            current = None;
            match taken {
                Some(name) => {
                    proof {
                        reveal_strlit("Description: ");
                        let line = ls@[i as int]@;
                        crate::text::lemma_trim_ends(crate::text::trim_start(line));
                        assert(t@ == crate::text::trim_end(crate::text::trim_start(line)));
                        if t@.len() == desc_prefix@.len() {
                            assert(t@ =~= desc_prefix@);
                            assert(t@.last() == ' ');
                            assert(false);
                        }
                    }
                    let desc = slice_chars(&t, desc_prefix.len(), t.len());
                    table.insert(string_of(&name), string_of(&desc));
                },
                None => {},
            }
        }
        i = i + 1;
    }
    assert(lv.take(ls.len() as int) == lv);
    table
}

/// Parses `pactl list sources` or `pactl list sinks` output (see
/// `pactl_devices`); parsing never fails.
pub fn parse_pactl_list_output(output: &str) -> (r: Result<DeviceDescriptions, String>)
    ensures
        r matches Ok(t) && t@ == pactl_devices(output@) && values_nonempty(t@),
{
    Ok(pactl_table(output))
}

/// Line `l` is a `Name:` line naming `n`.
pub open spec fn is_name_line(l: Seq<char>, n: Seq<char>) -> bool {
    starts_with(trim(l), "Name: "@) && trim(l).skip("Name: "@.len() as int) == n
}

/// Line `l` is a `Description:` line giving `d`.
pub open spec fn is_description_line(l: Seq<char>, d: Seq<char>) -> bool {
    starts_with(trim(l), "Description: "@) && trim(l).skip("Description: "@.len() as int) == d
}

/// Line `l` is a `Name:` or a `Description:` line.
pub open spec fn is_tag_line(l: Seq<char>) -> bool {
    starts_with(trim(l), "Name: "@) || starts_with(trim(l), "Description: "@)
}

/// Line `i` names `k`, line `j` after it describes it as `v`, and no `Name:`
/// or `Description:` line stands between them.
pub open spec fn paired_at(ls: Seq<Seq<char>>, i: int, j: int, k: Seq<char>, v: Seq<char>) -> bool {
    &&& 0 <= i < j < ls.len()
    &&& is_name_line(ls[i], k)
    &&& is_description_line(ls[j], v)
    &&& forall|m: int| i < m < j ==> !is_tag_line(#[trigger] ls[m])
}

/// No line is both a `Name:` and a `Description:` line.
proof fn lemma_tags_differ(t: Seq<char>)
    ensures
        !(starts_with(t, "Name: "@) && starts_with(t, "Description: "@)),
{
    reveal_strlit("Name: ");
    reveal_strlit("Description: ");
    if starts_with(t, "Name: "@) && starts_with(t, "Description: "@) {
        assert(t[0] == "Name: "@[0]);
        assert(t[0] == "Description: "@[0]);
    }
}

/// What reading `pactl` lines gives: every entry pairs a `Name:` line with a
/// later `Description:` line, and a pending name comes from a `Name:` line
/// with no `Name:` or `Description:` line after it.
proof fn lemma_pactl_fold_pairs(ls: Seq<Seq<char>>)
    ensures
        forall|k: Seq<char>| #[trigger] pactl_fold(ls).0.contains_key(k) ==> exists|i: int, j: int|
            paired_at(ls, i, j, k, pactl_fold(ls).0[k]),
        pactl_fold(ls).1 matches Some(n) ==> exists|i: int|
            0 <= i < ls.len() && is_name_line(#[trigger] ls[i], n) && forall|m: int|
                i < m < ls.len() ==> !is_tag_line(#[trigger] ls[m]),
    decreases ls.len(),
{
    if ls.len() > 0 {
        let d = ls.drop_last();
        let l = ls.last();
        let last = ls.len() - 1;
        lemma_pactl_fold_pairs(d);
        let st = pactl_fold(d);
        let t = trim(l);
        lemma_tags_differ(t);
        assert(ls[last] == l);
        assert forall|x: int| 0 <= x < d.len() implies ls[x] == d[x] by {}
        let pending_ok = st.1 matches Some(n) ==> exists|i: int|
            0 <= i < d.len() && is_name_line(#[trigger] d[i], n) && forall|m: int|
                i < m < d.len() ==> !is_tag_line(#[trigger] d[m]);
        assert(pending_ok);
        assert forall|k: Seq<char>| #[trigger] pactl_fold(ls).0.contains_key(k) implies exists|i: int, j: int|
            paired_at(ls, i, j, k, pactl_fold(ls).0[k]) by {
            let starts_desc = starts_with(t, "Description: "@);
            let name = if starts_with(t, "Name: "@) {
                Some(t.skip("Name: "@.len() as int))
            } else {
                st.1
            };
            if starts_desc && name is Some && name->0 == k {
                let n = name->0;
                let i = choose|i: int|
                    0 <= i < d.len() && is_name_line(#[trigger] d[i], n) && forall|m: int|
                        i < m < d.len() ==> !is_tag_line(#[trigger] d[m]);
                assert forall|m: int| i < m < last implies !is_tag_line(#[trigger] ls[m]) by {
                    assert(ls[m] == d[m]);
                }
                assert(paired_at(ls, i, last, k, pactl_fold(ls).0[k]));
            } else {
                assert(st.0.contains_key(k));
                assert(pactl_fold(ls).0[k] == st.0[k]);
                let (i, j) = choose|i: int, j: int| paired_at(d, i, j, k, st.0[k]);
                assert forall|m: int| i < m < j implies !is_tag_line(#[trigger] ls[m]) by {
                    assert(ls[m] == d[m]);
                    assert(!is_tag_line(d[m]));
                }
                assert(ls[i] == d[i] && ls[j] == d[j]);
                assert(paired_at(ls, i, j, k, pactl_fold(ls).0[k]));
            }
        }
        if pactl_fold(ls).1 is Some {
            let n = pactl_fold(ls).1->0;
            if starts_with(t, "Name: "@) {
                assert(is_name_line(ls[last], n));
            } else {
                let i = choose|i: int|
                    0 <= i < d.len() && is_name_line(#[trigger] d[i], n) && forall|m: int|
                        i < m < d.len() ==> !is_tag_line(#[trigger] d[m]);
                assert forall|m: int| i < m < ls.len() implies !is_tag_line(#[trigger] ls[m]) by {
                    if m < last {
                        assert(ls[m] == d[m]);
                    }
                }
                assert(is_name_line(ls[i], n));
            }
        }
    }
}

/// Each device that `pactl list` output describes pairs a `Name:` line with
/// a later `Description:` line giving its description, with no `Name:` or
/// `Description:` line between them.
pub proof fn lemma_pactl_names_pair_with_descriptions(output: Seq<char>, k: Seq<char>)
    requires
        pactl_devices(output).contains_key(k),
    ensures
        exists|i: int, j: int| paired_at(lines(output), i, j, k, pactl_devices(output)[k]),
{
    lemma_pactl_fold_pairs(lines(output));
}

// ---------------------------------------------------------------------------
// Combining sources and sinks
// ---------------------------------------------------------------------------

/// `k` names the monitor of a sink (`alsa_output.…`) that `base` describes.
pub open spec fn monitor_of_sink(base: Map<Seq<char>, Seq<char>>, k: Seq<char>) -> bool {
    let sink = k.take(k.len() - ".monitor"@.len());
    ends_with(k, ".monitor"@) && base.contains_key(sink) && starts_with(sink, "alsa_output."@)
}

/// `base` with, for every sink, its monitor source described as
/// `Monitor of <sink description>`.
pub open spec fn with_monitors(base: Map<Seq<char>, Seq<char>>) -> Map<Seq<char>, Seq<char>> {
    Map::new(
        |k: Seq<char>| base.contains_key(k) || monitor_of_sink(base, k),
        |k: Seq<char>|
            if monitor_of_sink(base, k) {
                "Monitor of "@ + base[k.take(k.len() - ".monitor"@.len())]
            } else {
                base[k]
            },
    )
}

/// Adding monitor descriptions keeps every description non-empty.
pub proof fn lemma_monitors_nonempty(base: Map<Seq<char>, Seq<char>>)
    requires
        values_nonempty(base),
    ensures
        values_nonempty(with_monitors(base)),
{
    reveal_strlit("Monitor of ");
    assert forall|k: Seq<char>| #[trigger] with_monitors(base).contains_key(k) implies with_monitors(base)[k].len() > 0 by {
        if !monitor_of_sink(base, k) {
            assert(base.contains_key(k));
        }
    }
}

/// The sources and sinks that the two queries found (a query that failed counts
/// as none), sinks overriding sources of the same name.
pub open spec fn queried_devices(
    sources: Option<Seq<char>>,
    sinks: Option<Seq<char>>,
) -> Map<Seq<char>, Seq<char>> {
    let a = match sources {
        Some(o) => pactl_devices(o),
        None => Map::empty(),
    };
    let b = match sinks {
        Some(o) => pactl_devices(o),
        None => Map::empty(),
    };
    a.union_prefer_right(b)
}

/// The string's characters, when there is a string.
pub open spec fn opt_str(s: Option<&str>) -> Option<Seq<char>> {
    match s {
        Some(x) => Some(x@),
        None => None,
    }
}

/// Copies every entry of `from` into `into`, later ones overriding.
fn extend_table(into: &mut DeviceDescriptions, from: &DeviceDescriptions)
    ensures
        final(into)@ == old(into)@.union_prefer_right(from@),
{
    proof {
        use_type_invariant(from);
        lemma_entries_map(from.entries());
    }
    let n = from.entry_count();
    let mut i: usize = 0;
    while i < n
        invariant
            n == from.entries().len(),
            i <= n,
            keys_distinct(from.entries()),
            into@ == old(into)@.union_prefer_right(entries_map(from.entries().take(i as int))),
        decreases n - i,
    {
        let (k, v) = from.entry(i);
        let ghost es = from.entries().take(i + 1);
        assert(es.drop_last() == from.entries().take(i as int));
        into.insert(k.clone(), v.clone());
        assert(into@ =~= old(into)@.union_prefer_right(entries_map(es)));
        i = i + 1;
    }
    assert(from.entries().take(n as int) == from.entries());
}

/// The device table built from the outputs of `pactl list sources` and
/// `pactl list sinks` (`None` for a query that failed): all sources and sinks,
/// plus `<sink>.monitor` → `Monitor of <sink description>` for every sink.
fn device_table(
    sources_output: Option<&str>,
    sinks_output: Option<&str>,
) -> (r: DeviceDescriptions)
    ensures
        r@ == with_monitors(queried_devices(opt_str(sources_output), opt_str(sinks_output))),
        values_nonempty(r@),
{
    let mut table = DeviceDescriptions::new();
    match sources_output {
        Some(o) => {
            let parsed = pactl_table(o);
            extend_table(&mut table, &parsed);
        },
        None => {},
    }
    assert(values_nonempty(table@));
    match sinks_output {
        Some(o) => {
            let parsed = pactl_table(o);
            let ghost before = table@;
            extend_table(&mut table, &parsed);
            assert(values_nonempty(table@)) by {
                assert forall|k: Seq<char>| #[trigger] table@.contains_key(k) implies table@[k].len() > 0 by {
                    if parsed@.contains_key(k) {
                    } else {
                        assert(before.contains_key(k));
                    }
                }
            }
        },
        None => {},
    }
    let ghost base = table@;
    assert(base =~= queried_devices(opt_str(sources_output), opt_str(sinks_output)));
    assert(values_nonempty(base));
    proof {
        lemma_monitors_nonempty(base);
    }
    proof {
        use_type_invariant(&table);
        lemma_entries_map(table.entries());
    }
    // The sinks, taken before any monitor is added.
    let mut sinks: Vec<(String, String)> = Vec::new();
    let out_prefix = chars_of("alsa_output.");
    let n = table.entry_count();
    let ghost es = table.entries();
    assert forall|j: int| 0 <= j < es.len() implies base.contains_key(#[trigger] es[j].0) && base[es[j].0] == es[j].1 by {
        assert(entries_map(es)[es[j].0] == es[j].1);
    }
    let mut i: usize = 0;
    while i < n
        invariant
            n == es.len(),
            es == table.entries(),
            base == table@,
            keys_distinct(es),
            forall|j: int| 0 <= j < es.len() ==> base.contains_key(#[trigger] es[j].0) && base[es[j].0] == es[j].1,
            i <= n,
            out_prefix@ == "alsa_output."@,
            forall|j: int| 0 <= j < sinks@.len() ==> starts_with(#[trigger] sinks@[j].0@, "alsa_output."@)
                && base.contains_key(sinks@[j].0@) && base[sinks@[j].0@] == sinks@[j].1@,
            forall|j: int| 0 <= j < i && starts_with(es[j].0, "alsa_output."@) ==> exists|m: int|
                0 <= m < sinks@.len() && #[trigger] sinks@[m].0@ == es[j].0,
        decreases n - i,
    {
        let (k, v) = table.entry(i);
        let kc = chars_of(k.as_str());
        let ghost s0 = sinks@;
        if starts_with_chars(&kc, &out_prefix) {
            sinks.push((k.clone(), v.clone()));
            assert(sinks@[sinks@.len() - 1].0@ == es[i as int].0);
            assert(forall|m: int| 0 <= m < s0.len() ==> sinks@[m] == s0[m]);
        }
        i = i + 1;
    }
    let mut result = table;
    let mut j: usize = 0;
    while j < sinks.len()
        invariant
            j <= sinks.len(),
            forall|m: int| 0 <= m < sinks@.len() ==> starts_with(#[trigger] sinks@[m].0@, "alsa_output."@)
                && base.contains_key(sinks@[m].0@) && base[sinks@[m].0@] == sinks@[m].1@,
            forall|k: Seq<char>| #[trigger]
                result@.contains_key(k) <==> base.contains_key(k) || exists|m: int|
                    0 <= m < j && k == #[trigger] sinks@[m].0@ + ".monitor"@,
            forall|k: Seq<char>|
                #![trigger result@[k]]
                result@.contains_key(k) ==> if exists|m: int|
                    0 <= m < j && k == #[trigger] sinks@[m].0@ + ".monitor"@ {
                    result@[k] == "Monitor of "@ + base[k.take(k.len() - ".monitor"@.len())]
                } else {
                    result@[k] == base[k]
                },
        decreases sinks.len() - j,
    {
        let (name, desc) = &sinks[j];
        let mon = concat_str(&chars_of(name.as_str()), ".monitor");
        let mdesc = concat_chars(&chars_of("Monitor of "), &chars_of(desc.as_str()));
        let ghost key = mon@;
        assert(key.take(key.len() - ".monitor"@.len()) == name@);
        result.insert(string_of(&mon), string_of(&mdesc));
        assert forall|k: Seq<char>| #[trigger]
            result@.contains_key(k) <==> base.contains_key(k) || exists|m: int|
                0 <= m < j + 1 && k == #[trigger] sinks@[m].0@ + ".monitor"@ by {
            if k == key {
                assert(k == sinks@[j as int].0@ + ".monitor"@);
            }
        }
        assert forall|k: Seq<char>|
            #![trigger result@[k]]
            result@.contains_key(k) implies if exists|m: int|
                0 <= m < j + 1 && k == #[trigger] sinks@[m].0@ + ".monitor"@ {
                result@[k] == "Monitor of "@ + base[k.take(k.len() - ".monitor"@.len())]
            } else {
                result@[k] == base[k]
            } by {
            if k == key {
                assert(k == sinks@[j as int].0@ + ".monitor"@);
            } else if exists|m: int| 0 <= m < j + 1 && k == #[trigger] sinks@[m].0@ + ".monitor"@ {
                let m = choose|m: int| 0 <= m < j + 1 && k == #[trigger] sinks@[m].0@ + ".monitor"@;
                assert(m != j);
            }
        }
        j = j + 1;
    }
    proof {
        assert forall|k: Seq<char>| #[trigger] monitor_of_sink(base, k) <==> exists|m: int|
            0 <= m < sinks@.len() && k == #[trigger] sinks@[m].0@ + ".monitor"@ by {
            let sink = k.take(k.len() - ".monitor"@.len());
            if monitor_of_sink(base, k) {
                let idx = choose|idx: int| 0 <= idx < es.len() && es[idx].0 == sink;
                let m = choose|m: int| 0 <= m < sinks@.len() && #[trigger] sinks@[m].0@ == es[idx].0;
                assert(k =~= sinks@[m].0@ + ".monitor"@);
            }
            if exists|m: int| 0 <= m < sinks@.len() && k == #[trigger] sinks@[m].0@ + ".monitor"@ {
                let m = choose|m: int| 0 <= m < sinks@.len() && k == #[trigger] sinks@[m].0@ + ".monitor"@;
                assert(k.take(k.len() - ".monitor"@.len()) =~= sinks@[m].0@);
                assert(k.skip(k.len() - ".monitor"@.len()) =~= ".monitor"@);
            }
        }
        assert(result@ =~= with_monitors(base));
    }
    result
}

/// The device table built from the outputs of `pactl list sources` and
/// `pactl list sinks` (`None` for a query that failed; see `device_table`).
/// A failed query leaves its devices out, so the result is always `Ok`.
pub fn query_device_descriptions(
    sources_output: Option<&str>,
    sinks_output: Option<&str>,
) -> (r: Result<DeviceDescriptions, String>)
    ensures
        r matches Ok(t) && t@ == with_monitors(queried_devices(opt_str(sources_output), opt_str(sinks_output)))
            && values_nonempty(t@),
{
    Ok(device_table(sources_output, sinks_output))
}

/// Reading a table after `insert(name, description)` gives that description
/// for the name and leaves every other name as it was.
pub proof fn lemma_get_after_insert(
    before: Map<Seq<char>, Seq<char>>,
    name: Seq<char>,
    description: Seq<char>,
    other: Seq<char>,
)
    ensures
        before.insert(name, description).contains_key(name),
        before.insert(name, description)[name] == description,
        other != name ==> (before.insert(name, description).contains_key(other) <==> before.contains_key(other)),
        other != name && before.contains_key(other) ==> before.insert(name, description)[other] == before[other],
{
}

} // verus!
