//! Character-sequence helpers shared by the parsers of this crate.
//!
//! Every helper works on `Vec<char>` and is specified over `Seq<char>`.
//! Character classification and case mapping are those of the standard
//! library: whitespace is the Unicode `White_Space` list, and case mapping is
//! reached through small wrappers (stated for ASCII, named otherwise).

use vstd::prelude::*;

verus! {

// ---------------------------------------------------------------------------
// Names for the standard library's character classification and case mapping
// ---------------------------------------------------------------------------

/// Whether `c` has the Unicode `White_Space` property, which is what
/// `char::is_whitespace` decides: the control characters U+0009 to U+000D,
/// the space, U+0085, U+00A0, U+1680, U+2000 to U+200A, U+2028, U+2029,
/// U+202F, U+205F and U+3000.
pub open spec fn unicode_whitespace(c: char) -> bool {
    let n = c as u32;
    ||| 0x9 <= n <= 0xD
    ||| n == 0x20
    ||| n == 0x85
    ||| n == 0xA0
    ||| n == 0x1680
    ||| 0x2000 <= n <= 0x200A
    ||| n == 0x2028
    ||| n == 0x2029
    ||| n == 0x202F
    ||| n == 0x205F
    ||| n == 0x3000
}

/// The ASCII upper-case letter of an ASCII lower-case letter; every other
/// character unchanged.
pub open spec fn ascii_upper(c: char) -> char {
    if 'a' <= c <= 'z' {
        ((c as u32) - 32) as char
    } else {
        c
    }
}

/// The ASCII lower-case letter of an ASCII upper-case letter; every other
/// character unchanged.
pub open spec fn ascii_lower(c: char) -> char {
    if 'A' <= c <= 'Z' {
        ((c as u32) + 32) as char
    } else {
        c
    }
}

/// Every character of `s` is ASCII.
pub open spec fn all_ascii(s: Seq<char>) -> bool {
    forall|i: int| 0 <= i < s.len() ==> (#[trigger] s[i] as u32) < 128
}

/// What `char::to_uppercase` yields for `c`: the ASCII upper case of an ASCII
/// character, and the characters named `char_uppercase` otherwise.
pub open spec fn upper_of(c: char) -> Seq<char> {
    if (c as u32) < 128 {
        seq![ascii_upper(c)]
    } else {
        char_uppercase(c)
    }
}

/// What `str::to_lowercase` returns for `s`: the ASCII lower case of ASCII
/// text, and the text named `str_lowercase` otherwise.
pub open spec fn lowercase(s: Seq<char>) -> Seq<char> {
    if all_ascii(s) {
        s.map_values(|c: char| ascii_lower(c))
    } else {
        str_lowercase(s)
    }
}

/// The characters that `char::to_uppercase` yields for `c`.
pub uninterp spec fn char_uppercase(c: char) -> Seq<char>;

/// The string that `str::to_lowercase` returns for `s`.
pub uninterp spec fn str_lowercase(s: Seq<char>) -> Seq<char>;

/// Whether `c` has the Unicode `White_Space` property (what
/// `char::is_whitespace` decides; see `unicode_whitespace`).
pub(crate) fn is_whitespace(c: char) -> (b: bool)
    ensures
        b == unicode_whitespace(c),
{
    let n = c as u32;
    (0x9 <= n && n <= 0xD) || n == 0x20 || n == 0x85 || n == 0xA0 || n == 0x1680 || (0x2000 <= n && n
        <= 0x200A) || n == 0x2028 || n == 0x2029 || n == 0x202F || n == 0x205F || n == 0x3000
}

/// `char::to_uppercase`, collected. The documentation says the iterator yields
/// one or more characters, and that an ASCII character maps as
/// `to_ascii_uppercase` does (`a`-`z` to `A`-`Z`, other ASCII unchanged);
/// for other characters which ones is only named.
#[verifier::external_body]
pub(crate) fn uppercase_of(c: char) -> (v: Vec<char>)
    ensures
        v@ == char_uppercase(c),
        v@.len() >= 1,
        (c as u32) < 128 ==> v@ == seq![ascii_upper(c)],
{
    c.to_uppercase().collect()
}

/// `str::to_lowercase` on the string made of `s`. On ASCII text it maps
/// `A`-`Z` to `a`-`z` and leaves every other character as it is (as
/// `to_ascii_lowercase` does); on other text the result is only named.
#[verifier::external_body]
pub(crate) fn lowercase_of(s: &Vec<char>) -> (v: Vec<char>)
    ensures
        v@ == str_lowercase(s@),
        all_ascii(s@) ==> v@ == s@.map_values(|c: char| ascii_lower(c)),
{
    s.iter().collect::<String>().to_lowercase().chars().collect()
}

/// `String::push`.
#[verifier::external_body]
pub(crate) fn push_char(s: &mut String, c: char)
    ensures
        final(s)@ == old(s)@.push(c),
{
    s.push(c);
}

// ---------------------------------------------------------------------------
// Specifications
// ---------------------------------------------------------------------------

/// `s` with every `from` replaced by `to` (`str::replace` with single characters).
pub open spec fn replace_char(s: Seq<char>, from: char, to: char) -> Seq<char> {
    s.map_values(|c: char| if c == from { to } else { c })
}

/// Whether `p` occurs in `s` at position `i`.
pub open spec fn occurs_at(s: Seq<char>, p: Seq<char>, i: int) -> bool {
    0 <= i && i + p.len() <= s.len() && s.subrange(i, i + p.len()) == p
}

/// The first position at or after `i` where `p` occurs in `s`.
pub open spec fn find_from(s: Seq<char>, p: Seq<char>, i: int) -> Option<int>
    decreases s.len() + 1 - i,
{
    if i < 0 || i + p.len() > s.len() {
        None
    } else if occurs_at(s, p, i) {
        Some(i)
    } else {
        find_from(s, p, i + 1)
    }
}

/// The first position where `p` occurs in `s` (`str::find`).
pub open spec fn find(s: Seq<char>, p: Seq<char>) -> Option<int> {
    find_from(s, p, 0)
}

/// The string's characters, when there is a string.
pub open spec fn opt_view(s: Option<String>) -> Option<Seq<char>> {
    match s {
        Some(x) => Some(x@),
        None => None,
    }
}

/// `str::contains`.
pub open spec fn contains(s: Seq<char>, p: Seq<char>) -> bool {
    find(s, p) is Some
}

/// `str::starts_with`.
pub open spec fn starts_with(s: Seq<char>, p: Seq<char>) -> bool {
    p.len() <= s.len() && s.take(p.len() as int) == p
}

/// `str::ends_with`.
pub open spec fn ends_with(s: Seq<char>, p: Seq<char>) -> bool {
    p.len() <= s.len() && s.skip(s.len() - p.len()) == p
}

/// `str::trim_start_matches` with a string pattern: every leading copy of `p` removed.
pub open spec fn trim_start_matches(s: Seq<char>, p: Seq<char>) -> Seq<char>
    decreases s.len(),
{
    if p.len() > 0 && starts_with(s, p) {
        trim_start_matches(s.skip(p.len() as int), p)
    } else {
        s
    }
}

/// `str::trim_end_matches` with a string pattern: every trailing copy of `p` removed.
pub open spec fn trim_end_matches(s: Seq<char>, p: Seq<char>) -> Seq<char>
    decreases s.len(),
{
    if p.len() > 0 && ends_with(s, p) {
        proof {
            assert(s.take(s.len() - p.len()).len() < s.len());
        }
        trim_end_matches(s.take(s.len() - p.len()), p)
    } else {
        s
    }
}

/// Scanning `s` for `str::split(sep)`: the finished pieces and the piece in progress.
pub open spec fn split_state(s: Seq<char>, sep: char) -> (Seq<Seq<char>>, Seq<char>)
    decreases s.len(),
{
    if s.len() == 0 {
        (seq![], seq![])
    } else {
        let (done, cur) = split_state(s.drop_last(), sep);
        if s.last() == sep {
            (done.push(cur), seq![])
        } else {
            (done, cur.push(s.last()))
        }
    }
}

/// The pieces of `str::split(sep)`; there is always at least one.
pub open spec fn split_on(s: Seq<char>, sep: char) -> Seq<Seq<char>> {
    split_state(s, sep).0.push(split_state(s, sep).1)
}

/// Scanning `s` for `str::split_whitespace`: the finished words and the word in progress.
pub open spec fn words_state(s: Seq<char>) -> (Seq<Seq<char>>, Seq<char>)
    decreases s.len(),
{
    if s.len() == 0 {
        (seq![], seq![])
    } else {
        let (done, cur) = words_state(s.drop_last());
        if unicode_whitespace(s.last()) {
            if cur.len() > 0 {
                (done.push(cur), seq![])
            } else {
                (done, seq![])
            }
        } else {
            (done, cur.push(s.last()))
        }
    }
}

/// The words of `str::split_whitespace`: the maximal runs of non-whitespace characters.
pub open spec fn words(s: Seq<char>) -> Seq<Seq<char>> {
    if words_state(s).1.len() > 0 {
        words_state(s).0.push(words_state(s).1)
    } else {
        words_state(s).0
    }
}

/// `parts` joined with `sep` between consecutive parts (`[T]::join`).
pub open spec fn join(parts: Seq<Seq<char>>, sep: Seq<char>) -> Seq<char>
    decreases parts.len(),
{
    if parts.len() == 0 {
        seq![]
    } else if parts.len() == 1 {
        parts[0]
    } else {
        join(parts.drop_last(), sep) + sep + parts.last()
    }
}

/// The first character upper-cased, the rest unchanged.
pub open spec fn capitalize(w: Seq<char>) -> Seq<char> {
    if w.len() == 0 {
        seq![]
    } else {
        upper_of(w[0]) + w.drop_first()
    }
}

/// Every word capitalized.
pub open spec fn capitalize_all(ws: Seq<Seq<char>>) -> Seq<Seq<char>> {
    ws.map_values(|w: Seq<char>| capitalize(w))
}

/// `s` without its leading whitespace.
pub open spec fn trim_start(s: Seq<char>) -> Seq<char>
    decreases s.len(),
{
    if s.len() > 0 && unicode_whitespace(s[0]) {
        trim_start(s.drop_first())
    } else {
        s
    }
}

/// `s` without its trailing whitespace.
pub open spec fn trim_end(s: Seq<char>) -> Seq<char>
    decreases s.len(),
{
    if s.len() > 0 && unicode_whitespace(s.last()) {
        trim_end(s.drop_last())
    } else {
        s
    }
}

/// `str::trim`.
pub open spec fn trim(s: Seq<char>) -> Seq<char> {
    trim_end(trim_start(s))
}

/// A line without the `'\r'` of a `"\r\n"` ending.
pub open spec fn strip_cr(l: Seq<char>) -> Seq<char> {
    if l.len() > 0 && l.last() == '\r' {
        l.drop_last()
    } else {
        l
    }
}

/// `str::lines`: the text split at `'\n'`, a `'\r'` before each `'\n'` removed,
/// and no empty last line after a final line ending.
pub open spec fn lines(s: Seq<char>) -> Seq<Seq<char>> {
    let pieces = split_on(s, '\n');
    let ended = pieces.drop_last().map_values(|l: Seq<char>| strip_cr(l));
    if pieces.last().len() == 0 {
        ended
    } else {
        ended.push(pieces.last())
    }
}

// ---------------------------------------------------------------------------
// Lemmas
// ---------------------------------------------------------------------------

/// A position found by `find_from` is an occurrence, and none comes before it.
pub proof fn lemma_find_from(s: Seq<char>, p: Seq<char>, i: int)
    requires
        0 <= i,
    ensures
        find_from(s, p, i) matches Some(k) ==> i <= k && occurs_at(s, p, k) && forall|j: int|
            i <= j < k ==> !occurs_at(s, p, j),
        find_from(s, p, i) is None ==> forall|j: int| i <= j ==> !occurs_at(s, p, j),
    decreases s.len() + 1 - i,
{
    if i + p.len() > s.len() {
    } else if occurs_at(s, p, i) {
    } else {
        lemma_find_from(s, p, i + 1);
    }
}

/// One step of `trim_end_matches` on the prefix of `s` of length `end`.
pub proof fn lemma_trim_end_matches_step(s: Seq<char>, p: Seq<char>, end: int)
    requires
        0 <= end <= s.len(),
    ensures
        (p.len() > 0 && p.len() <= end && occurs_at(s, p, end - p.len())) ==> trim_end_matches(
            s.take(end),
            p,
        ) == trim_end_matches(s.take(end - p.len()), p),
        !(p.len() > 0 && p.len() <= end && occurs_at(s, p, end - p.len())) ==> trim_end_matches(
            s.take(end),
            p,
        ) == s.take(end),
{
    let t = s.take(end);
    if p.len() > 0 && p.len() <= end {
        assert(t.skip(t.len() - p.len()) == s.subrange(end - p.len(), end));
        assert(t.take(t.len() - p.len()) == s.take(end - p.len()));
    }
}

/// Trimming whitespace never leaves whitespace at the start or the end.
pub proof fn lemma_trim_ends(s: Seq<char>)
    ensures
        trim_start(s).len() > 0 ==> !unicode_whitespace(trim_start(s)[0]),
        trim_end(s).len() > 0 ==> !unicode_whitespace(trim_end(s).last()),
        trim_end(s).len() <= s.len(),
        trim_end(s) == s.take(trim_end(s).len() as int),
    decreases s.len(),
{
    if s.len() > 0 && unicode_whitespace(s[0]) {
        lemma_trim_ends(s.drop_first());
    }
    if s.len() > 0 && unicode_whitespace(s.last()) {
        lemma_trim_ends(s.drop_last());
        assert(s.drop_last().take(trim_end(s).len() as int) == s.take(trim_end(s).len() as int));
    } else {
        assert(s.take(s.len() as int) == s);
    }
}

// ---------------------------------------------------------------------------
// Executable helpers
// ---------------------------------------------------------------------------

/// The characters of `s`, in order.
pub fn chars_of(s: &str) -> (v: Vec<char>)
    ensures
        v@ == s@,
{
    let mut v: Vec<char> = Vec::new();
    for c in iter: s.chars()
        invariant
            v@ == iter.seq().take(iter.index()),
    {
        v.push(c);
    }
    v
}

/// The string made of the characters of `v`.
pub fn string_of(v: &Vec<char>) -> (s: String)
    ensures
        s@ == v@,
{
    let mut s = String::new();
    let mut i: usize = 0;
    while i < v.len()
        invariant
            i <= v.len(),
            s@ == v@.take(i as int),
        decreases v.len() - i,
    {
        push_char(&mut s, v[i]);
        assert(v@.take(i + 1) == v@.take(i as int).push(v@[i as int]));
        i = i + 1;
    }
    assert(v@.take(v.len() as int) == v@);
    s
}

/// Appends the characters of `src` to `dst`.
pub fn append_chars(dst: &mut Vec<char>, src: &Vec<char>)
    ensures
        final(dst)@ == old(dst)@ + src@,
{
    let mut i: usize = 0;
    while i < src.len()
        invariant
            i <= src.len(),
            dst@ == old(dst)@ + src@.take(i as int),
        decreases src.len() - i,
    {
        dst.push(src[i]);
        assert(src@.take(i + 1) == src@.take(i as int).push(src@[i as int]));
        i = i + 1;
    }
    assert(src@.take(src.len() as int) == src@);
}

/// `a` followed by `b`.
pub fn concat_chars(a: &Vec<char>, b: &Vec<char>) -> (r: Vec<char>)
    ensures
        r@ == a@ + b@,
{
    let mut r: Vec<char> = Vec::new();
    append_chars(&mut r, a);
    append_chars(&mut r, b);
    r
}

/// A copy of `a[lo..hi]`.
pub fn slice_chars(a: &Vec<char>, lo: usize, hi: usize) -> (r: Vec<char>)
    requires
        lo <= hi <= a.len(),
    ensures
        r@ == a@.subrange(lo as int, hi as int),
{
    let mut r: Vec<char> = Vec::new();
    let mut i = lo;
    while i < hi
        invariant
            lo <= i <= hi <= a.len(),
            r@ == a@.subrange(lo as int, i as int),
        decreases hi - i,
    {
        r.push(a[i]);
        assert(a@.subrange(lo as int, i + 1) == a@.subrange(lo as int, i as int).push(a@[i as int]));
        i = i + 1;
    }
    r
}

/// `str::replace` with single characters.
pub fn replace_chars(s: &Vec<char>, from: char, to: char) -> (r: Vec<char>)
    ensures
        r@ == replace_char(s@, from, to),
{
    let mut r: Vec<char> = Vec::new();
    let mut i: usize = 0;
    while i < s.len()
        invariant
            i <= s.len(),
            r@ == replace_char(s@.take(i as int), from, to),
        decreases s.len() - i,
    {
        let c = s[i];
        if c == from {
            r.push(to);
        } else {
            r.push(c);
        }
        assert(replace_char(s@.take(i + 1), from, to) =~= replace_char(s@.take(i as int), from, to).push(
            if c == from { to } else { c },
        ));
        i = i + 1;
    }
    assert(s@.take(s.len() as int) == s@);
    r
}

/// Whether `p` occurs in `s` at position `i`.
pub fn occurs_at_exec(s: &Vec<char>, p: &Vec<char>, i: usize) -> (b: bool)
    ensures
        b == occurs_at(s@, p@, i as int),
{
    if i > s.len() || p.len() > s.len() - i {
        return false;
    }
    let mut k: usize = 0;
    while k < p.len()
        invariant
            k <= p.len(),
            i + p.len() <= s.len(),
            forall|j: int| 0 <= j < k ==> s@[i + j] == p@[j],
        decreases p.len() - k,
    {
        if s[i + k] != p[k] {
            assert(s@.subrange(i as int, i + p.len())[k as int] != p@[k as int]);
            return false;
        }
        k = k + 1;
    }
    assert(s@.subrange(i as int, i + p.len()) =~= p@);
    true
}

/// `str::find`: the first position where `p` occurs in `s`.
pub fn find_chars(s: &Vec<char>, p: &Vec<char>) -> (r: Option<usize>)
    ensures
        match r {
            Some(k) => find(s@, p@) == Some(k as int),
            None => find(s@, p@) is None,
        },
{
    if p.len() > s.len() {
        return None;
    }
    let mut i: usize = 0;
    while i <= s.len() - p.len()
        invariant
            p.len() <= s.len(),
            i <= s.len() - p.len() + 1,
            find(s@, p@) == find_from(s@, p@, i as int),
        decreases s.len() + 1 - i,
    {
        if occurs_at_exec(s, p, i) {
            return Some(i);
        }
        if i == s.len() - p.len() {
            assert(find_from(s@, p@, i + 1) is None);
            return None;
        }
        i = i + 1;
    }
    None
}

/// `str::contains`.
pub fn contains_chars(s: &Vec<char>, p: &Vec<char>) -> (b: bool)
    ensures
        b == contains(s@, p@),
{
    find_chars(s, p).is_some()
}

/// `str::starts_with`.
pub fn starts_with_chars(s: &Vec<char>, p: &Vec<char>) -> (b: bool)
    ensures
        b == starts_with(s@, p@),
{
    if p.len() > s.len() {
        return false;
    }
    let b = occurs_at_exec(s, p, 0);
    assert(s@.subrange(0, p@.len() as int) == s@.take(p@.len() as int));
    b
}

/// `str::ends_with`.
pub fn ends_with_chars(s: &Vec<char>, p: &Vec<char>) -> (b: bool)
    ensures
        b == ends_with(s@, p@),
{
    if p.len() > s.len() {
        return false;
    }
    let b = occurs_at_exec(s, p, s.len() - p.len());
    assert(s@.subrange(s.len() - p.len(), s.len() as int) == s@.skip(s.len() - p.len()));
    b
}

/// `str::trim_start_matches` with a string pattern.
pub fn trim_start_matches_chars(s: &Vec<char>, p: &Vec<char>) -> (r: Vec<char>)
    ensures
        r@ == trim_start_matches(s@, p@),
{
    let mut start: usize = 0;
    assert(s@.skip(0) == s@);
    loop
        invariant
            start <= s.len(),
            trim_start_matches(s@, p@) == trim_start_matches(s@.skip(start as int), p@),
        ensures
            start <= s.len(),
            trim_start_matches(s@, p@) == s@.skip(start as int),
        decreases s.len() - start,
    {
        let ghost rest = s@.skip(start as int);
        if p.len() == 0 || p.len() > s.len() - start {
            break;
        }
        assert(rest.take(p.len() as int) == s@.subrange(start as int, start + p.len()));
        if !occurs_at_exec(s, p, start) {
            break;
        }
        assert(rest.skip(p.len() as int) == s@.skip(start + p.len()));
        start = start + p.len();
    }
    slice_chars(s, start, s.len())
}

/// `str::trim_end_matches` with a string pattern.
pub fn trim_end_matches_chars(s: &Vec<char>, p: &Vec<char>) -> (r: Vec<char>)
    ensures
        r@ == trim_end_matches(s@, p@),
{
    let mut end: usize = s.len();
    assert(s@.take(end as int) == s@);
    loop
        invariant
            end <= s.len(),
            trim_end_matches(s@, p@) == trim_end_matches(s@.take(end as int), p@),
        ensures
            end <= s.len(),
            trim_end_matches(s@, p@) == s@.take(end as int),
        decreases end,
    {
        proof {
            lemma_trim_end_matches_step(s@, p@, end as int);
        }
        if p.len() == 0 || p.len() > end {
            break;
        }
        if !occurs_at_exec(s, p, end - p.len()) {
            break;
        }
        end = end - p.len();
    }
    slice_chars(s, 0, end)
}

/// `str::trim`.
pub fn trim_chars(s: &Vec<char>) -> (r: Vec<char>)
    ensures
        r@ == trim(s@),
{
    let mut lo: usize = 0;
    assert(s@.skip(0) == s@);
    while lo < s.len() && is_whitespace(s[lo])
        invariant
            lo <= s.len(),
            trim_start(s@) == trim_start(s@.skip(lo as int)),
        decreases s.len() - lo,
    {
        assert(s@.skip(lo as int).drop_first() == s@.skip(lo + 1));
        lo = lo + 1;
    }
    let mut hi: usize = s.len();
    let ghost u = s@.skip(lo as int);
    assert(trim_start(u) == u);
    assert(s@.subrange(lo as int, hi as int) == u);
    while hi > lo && is_whitespace(s[hi - 1])
        invariant
            lo <= hi <= s.len(),
            u == s@.skip(lo as int),
            trim_end(u) == trim_end(s@.subrange(lo as int, hi as int)),
        decreases hi,
    {
        assert(s@.subrange(lo as int, hi as int).drop_last() == s@.subrange(lo as int, hi - 1));
        hi = hi - 1;
    }
    assert(u.take(u.len() as int) == u);
    assert(s@.subrange(lo as int, s.len() as int) == u);
    slice_chars(s, lo, hi)
}

/// The character sequences held by a vector of character vectors.
pub open spec fn seqs(v: Seq<Vec<char>>) -> Seq<Seq<char>> {
    v.map_values(|x: Vec<char>| x@)
}

/// `str::split(sep)`.
pub fn split_chars(s: &Vec<char>, sep: char) -> (r: Vec<Vec<char>>)
    ensures
        seqs(r@) == split_on(s@, sep),
        r@.len() >= 1,
{
    let mut done: Vec<Vec<char>> = Vec::new();
    let mut cur: Vec<char> = Vec::new();
    let mut i: usize = 0;
    while i < s.len()
        invariant
            i <= s.len(),
            split_state(s@.take(i as int), sep) == (seqs(done@), cur@),
        decreases s.len() - i,
    {
        assert(s@.take(i + 1).drop_last() == s@.take(i as int));
        let c = s[i];
        if c == sep {
            let finished = cur;
            cur = Vec::new();
            let ghost d0 = done@;
            done.push(finished);
            assert(seqs(done@) =~= seqs(d0).push(finished@));
        } else {
            cur.push(c);
        }
        i = i + 1;
    }
    assert(s@.take(s.len() as int) == s@);
    let ghost d = done@;
    let ghost c = cur@;
    done.push(cur);
    assert(seqs(done@) =~= seqs(d).push(c));
    done
}


/// `str::split_whitespace`.
pub fn split_words(s: &Vec<char>) -> (r: Vec<Vec<char>>)
    ensures
        seqs(r@) == words(s@),
{
    let mut done: Vec<Vec<char>> = Vec::new();
    let mut cur: Vec<char> = Vec::new();
    let mut i: usize = 0;
    while i < s.len()
        invariant
            i <= s.len(),
            words_state(s@.take(i as int)) == (seqs(done@), cur@),
        decreases s.len() - i,
    {
        assert(s@.take(i + 1).drop_last() == s@.take(i as int));
        let c = s[i];
        if is_whitespace(c) {
            if cur.len() > 0 {
                let finished = cur;
                cur = Vec::new();
                let ghost d0 = done@;
                done.push(finished);
                assert(seqs(done@) =~= seqs(d0).push(finished@));
            } else {
                cur = Vec::new();
            }
        } else {
            cur.push(c);
        }
        i = i + 1;
    }
    assert(s@.take(s.len() as int) == s@);
    if cur.len() > 0 {
        let ghost d = done@;
        let ghost c = cur@;
        done.push(cur);
        assert(seqs(done@) =~= seqs(d).push(c));
    }
    done
}

/// `parts` joined with `sep` (`[T]::join`).
pub fn join_chars(parts: &Vec<Vec<char>>, sep: &Vec<char>) -> (r: Vec<char>)
    ensures
        r@ == join(seqs(parts@), sep@),
{
    let mut r: Vec<char> = Vec::new();
    let mut i: usize = 0;
    while i < parts.len()
        invariant
            i <= parts.len(),
            r@ == join(seqs(parts@).take(i as int), sep@),
        decreases parts.len() - i,
    {
        let ghost before = seqs(parts@).take(i as int);
        let ghost after = seqs(parts@).take(i + 1);
        assert(after.drop_last() == before);
        if i > 0 {
            append_chars(&mut r, sep);
        }
        append_chars(&mut r, &parts[i]);
        if i == 0 {
            assert(after =~= seq![parts@[0]@]);
        }
        i = i + 1;
    }
    assert(seqs(parts@).take(parts.len() as int) == seqs(parts@));
    r
}

/// The first character upper-cased, the rest unchanged.
pub fn capitalize_chars(w: &Vec<char>) -> (r: Vec<char>)
    ensures
        r@ == capitalize(w@),
{
    if w.len() == 0 {
        return Vec::new();
    }
    let mut r = uppercase_of(w[0]);
    let rest = slice_chars(w, 1, w.len());
    append_chars(&mut r, &rest);
    assert(w@.subrange(1, w@.len() as int) == w@.drop_first());
    r
}

/// Every word capitalized.
pub fn capitalize_each(ws: &Vec<Vec<char>>) -> (r: Vec<Vec<char>>)
    ensures
        seqs(r@) == capitalize_all(seqs(ws@)),
{
    let mut r: Vec<Vec<char>> = Vec::new();
    let mut i: usize = 0;
    while i < ws.len()
        invariant
            i <= ws.len(),
            seqs(r@) == capitalize_all(seqs(ws@).take(i as int)),
        decreases ws.len() - i,
    {
        let c = capitalize_chars(&ws[i]);
        let ghost r0 = r@;
        r.push(c);
        assert(seqs(r@) =~= seqs(r0).push(c@));
        assert(capitalize_all(seqs(ws@).take(i + 1)) =~= capitalize_all(seqs(ws@).take(i as int)).push(
            capitalize(ws@[i as int]@),
        ));
        i = i + 1;
    }
    assert(seqs(ws@).take(ws.len() as int) == seqs(ws@));
    r
}

/// `str::lines`.
pub fn lines_of(s: &Vec<char>) -> (r: Vec<Vec<char>>)
    ensures
        seqs(r@) == lines(s@),
{
    let pieces = split_chars(s, '\n');
    let n = pieces.len();
    let mut r: Vec<Vec<char>> = Vec::new();
    let mut i: usize = 0;
    let ghost ps = seqs(pieces@);
    while i + 1 < n
        invariant
            n == pieces.len(),
            n >= 1,
            i + 1 <= n,
            ps == seqs(pieces@),
            seqs(r@) == ps.drop_last().take(i as int).map_values(|l: Seq<char>| strip_cr(l)),
        decreases n - i,
    {
        let l = &pieces[i];
        let line = if l.len() > 0 && l[l.len() - 1] == '\r' {
            slice_chars(l, 0, l.len() - 1)
        } else {
            slice_chars(l, 0, l.len())
        };
        assert(l@.subrange(0, l@.len() - 1) == l@.drop_last());
        assert(l@.subrange(0, l@.len() as int) == l@);
        let ghost r0 = r@;
        r.push(line);
        assert(seqs(r@) =~= seqs(r0).push(line@));
        assert(ps.drop_last().take(i + 1).map_values(|l: Seq<char>| strip_cr(l)) =~= ps.drop_last().take(
            i as int,
        ).map_values(|l: Seq<char>| strip_cr(l)).push(strip_cr(ps[i as int])));
        i = i + 1;
    }
    assert(ps.drop_last().take(ps.len() - 1) == ps.drop_last());
    let last = &pieces[n - 1];
    if last.len() > 0 {
        let copy = slice_chars(last, 0, last.len());
        assert(last@.subrange(0, last@.len() as int) == last@);
        let ghost r0 = r@;
        r.push(copy);
        assert(seqs(r@) =~= seqs(r0).push(copy@));
    }
    r
}


/// Whether `a` and `b` hold the same characters.
pub fn eq_chars(a: &Vec<char>, b: &Vec<char>) -> (r: bool)
    ensures
        r == (a@ == b@),
{
    if a.len() != b.len() {
        return false;
    }
    let mut i: usize = 0;
    while i < a.len()
        invariant
            i <= a.len(),
            a.len() == b.len(),
            forall|j: int| 0 <= j < i ==> a@[j] == b@[j],
        decreases a.len() - i,
    {
        if a[i] != b[i] {
            return false;
        }
        i = i + 1;
    }
    assert(a@ =~= b@);
    true
}

/// Whether the characters of `a` are those of the string `b`.
pub fn eq_str(a: &Vec<char>, b: &str) -> (r: bool)
    ensures
        r == (a@ == b@),
{
    let bv = chars_of(b);
    eq_chars(a, &bv)
}

/// The characters of `a` followed by those of the string `b`.
pub fn concat_str(a: &Vec<char>, b: &str) -> (r: Vec<char>)
    ensures
        r@ == a@ + b@,
{
    let bv = chars_of(b);
    concat_chars(a, &bv)
}

/// The decimal digits of `n`, without leading zeros (`"0"` for zero), as
/// `Display` writes an unsigned integer.
pub open spec fn decimal(n: nat) -> Seq<char>
    decreases n,
{
    if n < 10 {
        seq![((n + 48) as u8) as char]
    } else {
        decimal(n / 10) + seq![((n % 10 + 48) as u8) as char]
    }
}

/// `n` in decimal (see `decimal`).
pub fn decimal_of(n: u64) -> (r: String)
    ensures
        r@ == decimal(n as nat),
{
    let mut digits: Vec<char> = Vec::new();
    let mut m: u64 = n;
    loop
        invariant
            decimal(n as nat) == decimal(m as nat) + digits@,
        decreases m,
    {
        let d: u8 = (m % 10) as u8;
        let c: char = (d + 48) as char;
        if m < 10 {
            let mut out: Vec<char> = Vec::new();
            out.push(c);
            append_chars(&mut out, &digits);
            return string_of(&out);
        }
        let mut next: Vec<char> = Vec::new();
        next.push(c);
        append_chars(&mut next, &digits);
        assert(decimal(m as nat) == decimal((m / 10) as nat) + seq![c]);
        assert(decimal((m / 10) as nat) + next@ == decimal((m / 10) as nat) + seq![c] + digits@);
        digits = next;
        m = m / 10;
    }
}

// ---------------------------------------------------------------------------
// Facts about words, pieces and joins
// ---------------------------------------------------------------------------

/// Reading more text after a finished word: the words of the rest follow.
pub proof fn lemma_words_state_concat(p: Seq<char>, y: Seq<char>)
    requires
        words_state(p).1.len() == 0,
    ensures
        words_state(p + y) == (words_state(p).0 + words_state(y).0, words_state(y).1),
    decreases y.len(),
{
    if y.len() == 0 {
        assert(p + y =~= p);
        assert(words_state(p).0 + words_state(y).0 =~= words_state(p).0);
    } else {
        lemma_words_state_concat(p, y.drop_last());
        assert((p + y).drop_last() =~= p + y.drop_last());
        assert((p + y).last() == y.last());
        let dd = words_state(y.drop_last()).0;
        let cc = words_state(y.drop_last()).1;
        assert((words_state(p).0 + dd).push(cc) =~= words_state(p).0 + dd.push(cc));
    }
}

/// Words separated by a space: the words of both sides.
pub proof fn lemma_words_space_sep(x: Seq<char>, y: Seq<char>)
    ensures
        words(x + seq![' '] + y) == words(x) + words(y),
{
    let xs = x + seq![' '];
    assert(xs.drop_last() =~= x);
    assert(xs.last() == ' ');
    assert(words_state(xs) == (words(x), Seq::<char>::empty()));
    lemma_words_state_concat(xs, y);
    assert(x + seq![' '] + y =~= xs + y);
    if words_state(y).1.len() > 0 {
        assert((words(x) + words_state(y).0).push(words_state(y).1) =~= words(x) + words_state(y).0.push(
            words_state(y).1,
        ));
    }
}

/// No character of `w` is whitespace.
pub open spec fn no_whitespace(w: Seq<char>) -> bool {
    forall|i: int| 0 <= i < w.len() ==> !unicode_whitespace(#[trigger] w[i])
}

/// A run without whitespace is a single word in progress.
pub proof fn lemma_words_of_word(w: Seq<char>)
    requires
        no_whitespace(w),
    ensures
        words_state(w) == (Seq::<Seq<char>>::empty(), w),
        w.len() > 0 ==> words(w) == seq![w],
    decreases w.len(),
{
    if w.len() > 0 {
        lemma_words_of_word(w.drop_last());
        assert(w.drop_last().push(w.last()) =~= w);
    }
}

/// Text with a character that is not whitespace has a word.
pub proof fn lemma_words_nonempty(s: Seq<char>, i: int)
    requires
        0 <= i < s.len(),
        !unicode_whitespace(s[i]),
    ensures
        words_state(s).0.len() > 0 || words_state(s).1.len() > 0,
        words(s).len() > 0,
    decreases s.len(),
{
    if i < s.len() - 1 {
        lemma_words_nonempty(s.drop_last(), i);
    }
}

/// Every word is non-empty, has no whitespace, and its characters satisfy
/// whatever every non-whitespace character of the text satisfies.
pub proof fn lemma_words_chars(s: Seq<char>, p: spec_fn(char) -> bool)
    requires
        forall|i: int| 0 <= i < s.len() && !unicode_whitespace(#[trigger] s[i]) ==> p(s[i]),
    ensures
        forall|k: int| 0 <= k < words(s).len() ==> (#[trigger] words(s)[k]).len() > 0 && no_whitespace(words(s)[k])
            && forall|j: int| 0 <= j < words(s)[k].len() ==> p(#[trigger] words(s)[k][j]),
        no_whitespace(words_state(s).1),
        forall|j: int| 0 <= j < words_state(s).1.len() ==> p(#[trigger] words_state(s).1[j]),
        forall|k: int| 0 <= k < words_state(s).0.len() ==> (#[trigger] words_state(s).0[k]).len() > 0
            && no_whitespace(words_state(s).0[k]) && forall|j: int|
            0 <= j < words_state(s).0[k].len() ==> p(#[trigger] words_state(s).0[k][j]),
    decreases s.len(),
{
    if s.len() > 0 {
        let d = s.drop_last();
        assert forall|i: int| 0 <= i < d.len() && !unicode_whitespace(#[trigger] d[i]) implies p(d[i]) by {
            assert(d[i] == s[i]);
        }
        lemma_words_chars(d, p);
        let cur = words_state(d).1;
        if !unicode_whitespace(s.last()) {
            let c2 = cur.push(s.last());
            assert forall|j: int| 0 <= j < c2.len() implies p(#[trigger] c2[j]) && !unicode_whitespace(c2[j]) by {
                if j < cur.len() {
                    assert(c2[j] == cur[j]);
                }
            }
        }
    }
}

/// `parts` joined: the join of the first ones, the separator, the join of the rest.
pub proof fn lemma_join_concat(a: Seq<Seq<char>>, b: Seq<Seq<char>>, sep: Seq<char>)
    requires
        a.len() > 0,
        b.len() > 0,
    ensures
        join(a + b, sep) == join(a, sep) + sep + join(b, sep),
    decreases b.len(),
{
    if b.len() == 1 {
        assert((a + b).drop_last() =~= a);
        assert((a + b).last() == b[0]);
    } else {
        lemma_join_concat(a, b.drop_last(), sep);
        assert((a + b).drop_last() =~= a + b.drop_last());
        assert((a + b).last() == b.last());
        assert(join(a + b, sep) =~= join(a, sep) + sep + join(b, sep));
    }
}

/// Joining non-empty words without whitespace with spaces, and splitting the
/// result into words, gives the words back.
pub proof fn lemma_words_of_join(ws: Seq<Seq<char>>)
    requires
        forall|k: int| 0 <= k < ws.len() ==> (#[trigger] ws[k]).len() > 0 && no_whitespace(ws[k]),
    ensures
        words(join(ws, seq![' '])) == ws,
    decreases ws.len(),
{
    if ws.len() == 0 {
        assert(words(Seq::<char>::empty()) =~= Seq::<Seq<char>>::empty());
    } else if ws.len() == 1 {
        lemma_words_of_word(ws[0]);
        assert(seq![ws[0]] =~= ws);
    } else {
        let d = ws.drop_last();
        lemma_words_of_join(d);
        lemma_words_space_sep(join(d, seq![' ']), ws.last());
        lemma_words_of_word(ws.last());
        assert(d + seq![ws.last()] =~= ws);
    }
}

/// Every character of a join is the separator's or a part's.
pub proof fn lemma_join_chars(ws: Seq<Seq<char>>, sep: Seq<char>, p: spec_fn(char) -> bool)
    requires
        forall|j: int| 0 <= j < sep.len() ==> p(#[trigger] sep[j]),
        forall|k: int, j: int| 0 <= k < ws.len() && 0 <= j < ws[k].len() ==> p(#[trigger] ws[k][j]),
    ensures
        forall|i: int| 0 <= i < join(ws, sep).len() ==> p(#[trigger] join(ws, sep)[i]),
    decreases ws.len(),
{
    if ws.len() == 1 {
        assert forall|i: int| 0 <= i < join(ws, sep).len() implies p(#[trigger] join(ws, sep)[i]) by {
            assert(ws[0][i] == join(ws, sep)[i]);
        }
    } else if ws.len() > 1 {
        let d = ws.drop_last();
        assert forall|k: int, j: int| 0 <= k < d.len() && 0 <= j < d[k].len() implies p(#[trigger] d[k][j]) by {
            assert(d[k] == ws[k]);
        }
        lemma_join_chars(d, sep, p);
        let a = join(d, sep);
        let l = ws.last();
        assert forall|i: int| 0 <= i < join(ws, sep).len() implies p(#[trigger] join(ws, sep)[i]) by {
            if i < a.len() {
                assert(join(ws, sep)[i] == a[i]);
            } else if i < a.len() + sep.len() {
                assert(join(ws, sep)[i] == sep[i - a.len()]);
            } else {
                assert(join(ws, sep)[i] == l[i - a.len() - sep.len()]);
                assert(ws[ws.len() - 1] == l);
            }
        }
    }
}

/// Without the separator in the text, splitting gives the text as one piece.
pub proof fn lemma_split_without_sep(s: Seq<char>, sep: char)
    requires
        forall|i: int| 0 <= i < s.len() ==> #[trigger] s[i] != sep,
    ensures
        split_state(s, sep) == (Seq::<Seq<char>>::empty(), s),
        split_on(s, sep)[0] == s,
    decreases s.len(),
{
    if s.len() > 0 {
        lemma_split_without_sep(s.drop_last(), sep);
        assert(s.drop_last().push(s.last()) =~= s);
    }
}

/// The first piece of a split holds no separator, and only characters of the
/// text.
pub proof fn lemma_split_first_chars(s: Seq<char>, sep: char, p: spec_fn(char) -> bool)
    requires
        forall|i: int| 0 <= i < s.len() ==> p(#[trigger] s[i]),
    ensures
        forall|j: int| 0 <= j < split_on(s, sep)[0].len() ==> #[trigger] split_on(s, sep)[0][j] != sep && p(
            split_on(s, sep)[0][j],
        ),
        split_state(s, sep).0.len() > 0 ==> forall|j: int| 0 <= j < split_state(s, sep).0[0].len() ==>
            #[trigger] split_state(s, sep).0[0][j] != sep && p(split_state(s, sep).0[0][j]),
        split_state(s, sep).0.len() == 0 ==> forall|j: int| 0 <= j < split_state(s, sep).1.len() ==>
            #[trigger] split_state(s, sep).1[j] != sep && p(split_state(s, sep).1[j]),
    decreases s.len(),
{
    if s.len() > 0 {
        let d = s.drop_last();
        assert forall|i: int| 0 <= i < d.len() implies p(#[trigger] d[i]) by {
            assert(d[i] == s[i]);
        }
        lemma_split_first_chars(d, sep, p);
        let cur = split_state(d, sep).1;
        if split_state(d, sep).0.len() == 0 && s.last() != sep {
            let c2 = cur.push(s.last());
            assert forall|j: int| 0 <= j < c2.len() implies #[trigger] c2[j] != sep && p(c2[j]) by {
                if j < cur.len() {
                    assert(c2[j] == cur[j]);
                }
            }
        }
        if split_state(d, sep).0.len() > 0 {
            assert(split_state(s, sep).0[0] == split_state(d, sep).0[0]);
        }
    }
}

/// Replacing one character by another that are both not the separator
/// commutes with splitting.
pub proof fn lemma_split_state_replace(s: Seq<char>, from: char, to: char, sep: char)
    requires
        from != sep,
        to != sep,
    ensures
        split_state(replace_char(s, from, to), sep).0 == split_state(s, sep).0.map_values(
            |w: Seq<char>| replace_char(w, from, to),
        ),
        split_state(replace_char(s, from, to), sep).1 == replace_char(split_state(s, sep).1, from, to),
    decreases s.len(),
{
    if s.len() > 0 {
        let d = s.drop_last();
        lemma_split_state_replace(d, from, to, sep);
        assert(replace_char(s, from, to).drop_last() =~= replace_char(d, from, to));
        let cur = split_state(d, sep).1;
        assert(replace_char(cur.push(s.last()), from, to) =~= replace_char(cur, from, to).push(
            replace_char(s, from, to).last(),
        ));
        assert(split_state(d, sep).0.push(cur).map_values(|w: Seq<char>| replace_char(w, from, to))
            =~= split_state(d, sep).0.map_values(|w: Seq<char>| replace_char(w, from, to)).push(
            replace_char(cur, from, to),
        ));
        assert(replace_char(Seq::<char>::empty(), from, to) =~= Seq::<char>::empty());
    }
}

/// The first piece of a split, with characters replaced, is the first piece
/// of the replaced text.
pub proof fn lemma_split_first_replace(s: Seq<char>, from: char, to: char, sep: char)
    requires
        from != sep,
        to != sep,
    ensures
        split_on(replace_char(s, from, to), sep)[0] == replace_char(split_on(s, sep)[0], from, to),
{
    lemma_split_state_replace(s, from, to, sep);
}

/// Text has no words exactly when all of it is whitespace.
pub proof fn lemma_words_empty(s: Seq<char>)
    ensures
        words(s).len() == 0 <==> forall|i: int| 0 <= i < s.len() ==> unicode_whitespace(#[trigger] s[i]),
        (forall|i: int| 0 <= i < s.len() ==> unicode_whitespace(#[trigger] s[i])) ==> words_state(s) == (
            Seq::<Seq<char>>::empty(),
            Seq::<char>::empty(),
        ),
    decreases s.len(),
{
    if s.len() > 0 {
        lemma_words_empty(s.drop_last());
        if forall|i: int| 0 <= i < s.len() ==> unicode_whitespace(#[trigger] s[i]) {
            assert forall|i: int| 0 <= i < s.drop_last().len() implies unicode_whitespace(
                #[trigger] s.drop_last()[i],
            ) by {
                assert(s.drop_last()[i] == s[i]);
            }
        }
    }
    if !(forall|i: int| 0 <= i < s.len() ==> unicode_whitespace(#[trigger] s[i])) {
        let i = choose|i: int| 0 <= i < s.len() && !unicode_whitespace(#[trigger] s[i]);
        lemma_words_nonempty(s, i);
    }
}

/// A join of non-empty parts is empty exactly when there are no parts.
pub proof fn lemma_join_empty(ws: Seq<Seq<char>>, sep: Seq<char>)
    requires
        forall|k: int| 0 <= k < ws.len() ==> (#[trigger] ws[k]).len() > 0,
    ensures
        join(ws, sep).len() == 0 <==> ws.len() == 0,
{
    if ws.len() > 1 {
        assert(ws.last().len() > 0);
    } else if ws.len() == 1 {
        assert(ws[0].len() > 0);
    }
}

/// The pieces of a split, joined with spaces, are the text with each
/// separator turned into a space.
pub proof fn lemma_join_split_is_replace(s: Seq<char>, sep: char)
    ensures
        join(split_on(s, sep), seq![' ']) == replace_char(s, sep, ' '),
    decreases s.len(),
{
    if s.len() == 0 {
        assert(replace_char(s, sep, ' ') =~= Seq::<char>::empty());
    } else {
        let d = s.drop_last();
        lemma_join_split_is_replace(d, sep);
        let done = split_state(d, sep).0;
        let cur = split_state(d, sep).1;
        assert(replace_char(s, sep, ' ') =~= replace_char(d, sep, ' ').push(if s.last() == sep { ' ' } else { s.last() }));
        if s.last() == sep {
            let ps = done.push(cur).push(seq![]);
            assert(ps.drop_last() =~= done.push(cur));
            assert(join(ps, seq![' ']) =~= join(done.push(cur), seq![' ']) + seq![' '] + Seq::<char>::empty());
        } else {
            let c2 = cur.push(s.last());
            if done.len() == 0 {
                assert(done.push(cur) =~= seq![cur]);
                assert(done.push(c2) =~= seq![c2]);
            } else {
                assert(done.push(cur).drop_last() =~= done);
                assert(done.push(c2).drop_last() =~= done);
                assert(join(done.push(c2), seq![' ']) =~= join(done, seq![' ']) + seq![' '] + c2);
            }
        }
    }
}

/// Text holding the separator splits into at least two pieces.
pub proof fn lemma_split_at_sep(s: Seq<char>, sep: char, i: int)
    requires
        0 <= i < s.len(),
        s[i] == sep,
    ensures
        split_state(s, sep).0.len() >= 1,
        split_on(s, sep).len() >= 2,
    decreases s.len(),
{
    if i < s.len() - 1 {
        lemma_split_at_sep(s.drop_last(), sep, i);
    }
}

} // verus!
