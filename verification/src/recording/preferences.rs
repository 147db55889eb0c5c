//! Recording preferences: defaults, the default recordings folder, integrity
//! checks, recording file names and the audio capture backends.
//!
//! Preferences default to saving automatically (`auto_save` is `true`) as MP4
//! into `<Documents>/meetily-recordings`.

use vstd::prelude::*;
use chrono::{Datelike, Timelike};
use crate::text::{append_chars, chars_of, concat_str, decimal, decimal_of, string_of, ends_with, eq_chars, eq_str, starts_with, starts_with_chars};

verus! {

/// The name of the folder that recordings go to.
pub open spec fn recordings_dir_name() -> Seq<char> {
    "meetily-recordings"@
}

/// `base` joined with the relative component `part` (`Path::join` on Unix):
/// a `'/'` is put between them unless `base` is empty or already ends in one.
pub open spec fn join_path(base: Seq<char>, part: Seq<char>) -> Seq<char> {
    if base.len() == 0 || base.last() == '/' {
        base + part
    } else {
        base + "/"@ + part
    }
}

/// The recordings folder inside the documents folder, or inside `.` when
/// there is no documents folder.
pub open spec fn recordings_folder(documents: Option<Seq<char>>) -> Seq<char> {
    match documents {
        Some(d) => join_path(d, recordings_dir_name()),
        None => join_path("."@, recordings_dir_name()),
    }
}

/// The user's documents folder (`dirs::document_dir`), as text. Where it is
/// depends on the platform and the user's environment, so nothing is stated
/// of the result.
#[verifier::external_body]
fn documents_folder() -> Option<String> {
    dirs::document_dir().map(|p| p.to_string_lossy().into_owned())
}

/// The seconds since the Unix epoch on the system clock
/// (`SystemTime::now().duration_since(UNIX_EPOCH)`, in whole seconds), or
/// `None` when the clock reads before the epoch. It depends on the clock, so
/// nothing is stated of it.
#[verifier::external_body]
fn seconds_since_epoch() -> Option<u64> {
    std::time::SystemTime::now().duration_since(std::time::UNIX_EPOCH).ok().map(|d| d.as_secs())
}

/// The UTC calendar fields (year, month, day, hour, minute, second) of
/// `secs` seconds after the Unix epoch, as chrono's
/// `DateTime::from_timestamp(secs, 0)` gives them; `None` outside chrono's
/// date range.
pub uninterp spec fn utc_calendar(secs: i64) -> Option<(i32, u32, u32, u32, u32, u32)>;

/// chrono's `DateTime::from_timestamp(secs, 0)`, read through its `year`,
/// `month`, `day`, `hour`, `minute` and `second` getters. chrono returns
/// `None` only for seconds outside its date range, which covers every second
/// from the epoch up to 8·10^12 seconds after it (about the year 255,000);
/// the fields are in the ranges chrono documents. Which date a number of
/// seconds is, is only named.
#[verifier::external_body]
fn utc_fields_at(secs: i64) -> (r: Option<(i32, u32, u32, u32, u32, u32)>)
    ensures
        r == utc_calendar(secs),
        r matches Some(f) ==> timestamp_fields_valid(f.0, f.1, f.2, f.3, f.4, f.5),
        0 <= secs <= 8_000_000_000_000 ==> r is Some,
{
    chrono::DateTime::from_timestamp(secs, 0).map(
        |t| (t.year(), t.month(), t.day(), t.hour(), t.minute(), t.second()),
    )
}

/// Calendar fields in the ranges chrono gives them.
pub open spec fn timestamp_fields_valid(y: i32, mo: u32, d: u32, h: u32, mi: u32, s: u32) -> bool {
    &&& -262143 <= y <= 262142
    &&& 1 <= mo <= 12
    &&& 1 <= d <= 31
    &&& h < 24
    &&& mi < 60
    &&& s < 60
}

/// `n` in decimal, padded with leading zeros to at least `width` digits.
pub open spec fn zero_padded(n: nat, width: nat) -> Seq<char> {
    let digits = decimal(n);
    if digits.len() >= width {
        digits
    } else {
        Seq::new((width - digits.len()) as nat, |_i: int| '0') + digits
    }
}

/// A year as `%Y` writes it: four digits (zero-padded) for years 0 to 9999,
/// otherwise a sign followed by at least four digits.
pub open spec fn year_text(y: int) -> Seq<char> {
    if 0 <= y <= 9999 {
        zero_padded(y as nat, 4)
    } else if y > 9999 {
        "+"@ + zero_padded(y as nat, 4)
    } else {
        "-"@ + zero_padded((-y) as nat, 4)
    }
}

/// The compact timestamp of recording file names, `YYYYMMDD_HHMMSS`
/// (`%Y%m%d_%H%M%S`).
pub open spec fn compact_timestamp_spec(y: i32, mo: u32, d: u32, h: u32, mi: u32, s: u32) -> Seq<char> {
    year_text(y as int) + zero_padded(mo as nat, 2) + zero_padded(d as nat, 2) + "_"@ + zero_padded(h as nat, 2)
        + zero_padded(mi as nat, 2) + zero_padded(s as nat, 2)
}

/// `n` in decimal with leading zeros up to `width` digits.
pub fn zero_padded_of(n: u64, width: usize) -> (r: String)
    ensures
        r@ == zero_padded(n as nat, width as nat),
{
    let digits = chars_of(decimal_of(n).as_str());
    if digits.len() >= width {
        return string_of(&digits);
    }
    let pad_len = width - digits.len();
    let mut out: Vec<char> = Vec::new();
    let mut i: usize = 0;
    while i < pad_len
        invariant
            i <= pad_len,
            out@ == Seq::new(i as nat, |_j: int| '0'),
        decreases pad_len - i,
    {
        out.push('0');
        i = i + 1;
        assert(out@ =~= Seq::new(i as nat, |_j: int| '0'));
    }
    append_chars(&mut out, &digits);
    string_of(&out)
}

/// The compact timestamp `YYYYMMDD_HHMMSS` of the given calendar fields (see
/// `compact_timestamp_spec`).
pub fn compact_timestamp(y: i32, mo: u32, d: u32, h: u32, mi: u32, s: u32) -> (r: String)
    ensures
        r@ == compact_timestamp_spec(y, mo, d, h, mi, s),
{
    let year: i64 = y as i64;
    let year_part = if 0 <= year && year <= 9999 {
        zero_padded_of(year as u64, 4)
    } else if year > 9999 {
        String::from_str("+").concat(zero_padded_of(year as u64, 4).as_str())
    } else {
        String::from_str("-").concat(zero_padded_of((-year) as u64, 4).as_str())
    };
    year_part.concat(zero_padded_of(mo as u64, 2).as_str()).concat(zero_padded_of(d as u64, 2).as_str()).concat(
        "_",
    ).concat(zero_padded_of(h as u64, 2).as_str()).concat(zero_padded_of(mi as u64, 2).as_str()).concat(
        zero_padded_of(s as u64, 2).as_str(),
    )
}

/// Every character of `decimal(n)` is an ASCII digit.
pub proof fn lemma_decimal_digits(n: nat)
    ensures
        forall|i: int| 0 <= i < decimal(n).len() ==> '0' <= #[trigger] decimal(n)[i] <= '9',
        decimal(n).len() >= 1,
    decreases n,
{
    if n >= 10 {
        lemma_decimal_digits(n / 10);
        let a = decimal(n / 10);
        let b = seq![((n % 10 + 48) as u8) as char];
        assert forall|i: int| 0 <= i < decimal(n).len() implies '0' <= #[trigger] decimal(n)[i] <= '9' by {
            if i < a.len() {
                assert(decimal(n)[i] == a[i]);
            } else {
                assert(decimal(n)[i] == b[i - a.len()]);
            }
        }
    }
}

/// Below `10^k` (for `k` up to 4) a number has at most `k` digits.
pub proof fn lemma_decimal_len(n: nat)
    ensures
        n < 10 ==> decimal(n).len() == 1,
        n < 100 ==> decimal(n).len() <= 2,
        n < 1000 ==> decimal(n).len() <= 3,
        n < 10000 ==> decimal(n).len() <= 4,
    decreases n,
{
    if n >= 10 {
        lemma_decimal_len(n / 10);
        assert(decimal(n).len() == decimal(n / 10).len() + 1);
    }
}

/// `zero_padded(n, w)` has exactly `w` digits when `n < 10^w` (for `w` 2 or 4).
pub proof fn lemma_zero_padded_shape(n: nat, w: nat)
    requires
        (w == 2 && n < 100) || (w == 4 && n < 10000),
    ensures
        zero_padded(n, w).len() == w,
        forall|i: int| 0 <= i < w ==> '0' <= #[trigger] zero_padded(n, w)[i] <= '9',
{
    lemma_decimal_len(n);
    lemma_decimal_digits(n);
    let digits = decimal(n);
    let z = zero_padded(n, w);
    if digits.len() < w {
        let pad = Seq::new((w - digits.len()) as nat, |_i: int| '0');
        assert forall|i: int| 0 <= i < w implies '0' <= #[trigger] z[i] <= '9' by {
            if i < pad.len() {
                assert(z[i] == pad[i]);
            } else {
                assert(z[i] == digits[i - pad.len()]);
            }
        }
    }
}

/// For years 0 to 9999 the compact timestamp is fifteen characters: eight
/// digits, `_`, six digits.
pub proof fn lemma_compact_timestamp_shape(y: i32, mo: u32, d: u32, h: u32, mi: u32, s: u32)
    requires
        timestamp_fields_valid(y, mo, d, h, mi, s),
        0 <= y <= 9999,
    ensures
        compact_timestamp_spec(y, mo, d, h, mi, s).len() == 15,
        compact_timestamp_spec(y, mo, d, h, mi, s)[8] == '_',
        forall|i: int|
            0 <= i < 15 && i != 8 ==> '0' <= #[trigger] compact_timestamp_spec(y, mo, d, h, mi, s)[i] <= '9',
{
    let ys = zero_padded(y as nat, 4);
    let ms = zero_padded(mo as nat, 2);
    let ds = zero_padded(d as nat, 2);
    let hs = zero_padded(h as nat, 2);
    let mis = zero_padded(mi as nat, 2);
    let ss = zero_padded(s as nat, 2);
    lemma_zero_padded_shape(y as nat, 4);
    lemma_zero_padded_shape(mo as nat, 2);
    lemma_zero_padded_shape(d as nat, 2);
    lemma_zero_padded_shape(h as nat, 2);
    lemma_zero_padded_shape(mi as nat, 2);
    lemma_zero_padded_shape(s as nat, 2);
    reveal_strlit("_");
    let t = compact_timestamp_spec(y, mo, d, h, mi, s);
    assert(t =~= ys + ms + ds + "_"@ + hs + mis + ss);
    assert forall|i: int| 0 <= i < 15 && i != 8 implies '0' <= #[trigger] t[i] <= '9' by {
        if i < 4 {
            assert(t[i] == ys[i]);
        } else if i < 6 {
            assert(t[i] == ms[i - 4]);
        } else if i < 8 {
            assert(t[i] == ds[i - 6]);
        } else if i < 11 {
            assert(t[i] == hs[i - 9]);
        } else if i < 13 {
            assert(t[i] == mis[i - 11]);
        } else {
            assert(t[i] == ss[i - 13]);
        }
    }
}

/// `base` joined with `part` (see `join_path`).
pub fn join_path_exec(base: &str, part: &str) -> (r: String)
    ensures
        r@ == join_path(base@, part@),
{
    let b = chars_of(base);
    if b.len() == 0 || b[b.len() - 1] == '/' {
        String::from_str(base).concat(part)
    } else {
        String::from_str(base).concat("/").concat(part)
    }
}

/// The recordings folder for a given documents folder (see `recordings_folder`).
pub fn recordings_folder_in(documents: Option<String>) -> (r: String)
    ensures
        r@ == recordings_folder(
            match documents {
                Some(d) => Some(d@),
                None => None,
            },
        ),
{
    match documents {
        Some(d) => join_path_exec(d.as_str(), "meetily-recordings"),
        None => join_path_exec(".", "meetily-recordings"),
    }
}

/// The default recordings folder: `meetily-recordings` inside the user's
/// documents folder, or inside `.` when there is none.
pub fn get_default_recordings_folder() -> (r: String)
    ensures
        exists|d: Option<Seq<char>>| r@ == recordings_folder(d),
        r@.len() > 0,
        ends_with(r@, recordings_dir_name()),
{
    let documents = documents_folder();
    let ghost d = match &documents {
        Some(s) => Some(s@),
        None => None,
    };
    let r = recordings_folder_in(documents);
    proof {
        lemma_recordings_folder_shape(d);
    }
    r
}

/// A recordings folder is never empty and ends in `meetily-recordings`.
pub proof fn lemma_recordings_folder_shape(d: Option<Seq<char>>)
    ensures
        recordings_folder(d).len() > 0,
        ends_with(recordings_folder(d), recordings_dir_name()),
        crate::text::contains(recordings_folder(d), recordings_dir_name()),
{
    let base = match d {
        Some(s) => s,
        None => "."@,
    };
    let part = recordings_dir_name();
    reveal_strlit("meetily-recordings");
    let r = recordings_folder(d);
    assert(r.len() >= part.len());
    assert(r.subrange(r.len() - part.len(), r.len() as int) =~= part);
    assert(crate::text::occurs_at(r, part, r.len() - part.len()));
    crate::text::lemma_find_from(r, part, 0);
}

/// Recording preferences.
#[derive(Clone, Debug)]
pub struct RecordingPreferences {
    /// Folder that recordings are saved to.
    pub save_folder: String,
    /// Whether audio is saved (otherwise only transcripts are kept).
    pub auto_save: bool,
    /// File format of saved audio (`mp4`, `wav` or `m4a`).
    pub file_format: String,
    /// Preferred microphone.
    pub preferred_mic_device: Option<String>,
    /// Preferred system audio device.
    pub preferred_system_device: Option<String>,
}

/// What the default preferences are: saving automatically, MP4, no preferred
/// devices, into the default recordings folder.
pub open spec fn is_default_preferences(p: RecordingPreferences) -> bool {
    &&& p.auto_save
    &&& p.file_format@ == "mp4"@
    &&& p.preferred_mic_device is None
    &&& p.preferred_system_device is None
    &&& exists|d: Option<Seq<char>>| p.save_folder@ == recordings_folder(d)
    &&& p.save_folder@.len() > 0
    &&& ends_with(p.save_folder@, recordings_dir_name())
}

impl Default for RecordingPreferences {
    /// Save automatically, as MP4, into the default recordings folder.
    fn default() -> (r: Self)
        ensures
            is_default_preferences(r),
    {
        RecordingPreferences {
            save_folder: get_default_recordings_folder(),
            auto_save: true,
            file_format: String::from_str("mp4"),
            preferred_mic_device: None,
            preferred_system_device: None,
        }
    }
}

/// Why preferences fail the integrity check.
#[derive(Clone, Debug)]
pub enum PreferenceError {
    /// The save folder is empty.
    EmptySaveFolder,
    /// The file format is empty.
    EmptyFileFormat,
    /// The file format is not one of `mp4`, `wav`, `m4a`.
    UnsupportedFileFormat(String),
    /// The save folder is a root directory.
    RootDirectory(String),
    /// The save folder is, or is inside, a system directory.
    SystemDirectory(String),
}

/// The file formats recordings can be saved in.
pub open spec fn supported_format(f: Seq<char>) -> bool {
    f == "mp4"@ || f == "wav"@ || f == "m4a"@
}

/// Root directories.
pub open spec fn is_root_path(p: Seq<char>) -> bool {
    p == "/"@ || p == "C:\\"@ || p == "\\"@
}

/// System directories that recordings must not go into.
pub open spec fn system_dirs() -> Seq<Seq<char>> {
    seq![
        "/usr/bin"@, "/bin"@, "/sbin"@, "/etc"@, "/var"@, "/sys"@, "/proc"@,
        "/System32"@, "C:\\System32"@, "C:\\Windows\\System32"@,
        "/Windows"@, "C:\\Windows"@,
        "/Program Files"@, "C:\\Program Files"@,
        "/System"@, "C:\\System"@,
    ]
}

/// `p` is the directory `dir` or lies inside it (with either separator).
pub open spec fn within(p: Seq<char>, dir: Seq<char>) -> bool {
    p == dir || starts_with(p, dir + "/"@) || starts_with(p, dir + "\\"@)
}

/// `p` is, or lies inside, one of the system directories.
pub open spec fn in_system_dir(p: Seq<char>) -> bool {
    exists|i: int| 0 <= i < system_dirs().len() && within(p, #[trigger] system_dirs()[i])
}

/// Preferences that pass the integrity check.
pub open spec fn preferences_valid(p: RecordingPreferences) -> bool {
    &&& p.save_folder@.len() > 0
    &&& p.file_format@.len() > 0
    &&& supported_format(p.file_format@)
    &&& !is_root_path(p.save_folder@)
    &&& !in_system_dir(p.save_folder@)
}

/// Whether preferences pass the integrity check depends on their folder and
/// format alone: never on `auto_save` or the preferred devices.
pub proof fn lemma_validity_ignores_auto_save_and_devices(p: RecordingPreferences, q: RecordingPreferences)
    requires
        p.save_folder@ == q.save_folder@,
        p.file_format@ == q.file_format@,
    ensures
        preferences_valid(p) == preferences_valid(q),
{
}

/// The error that the integrity check reports for `p`: the first check that
/// fails, in the order folder, format, supported format, root, system dir.
pub open spec fn reports(p: RecordingPreferences, e: PreferenceError) -> bool {
    let folder = p.save_folder@;
    let format = p.file_format@;
    match e {
        PreferenceError::EmptySaveFolder => folder.len() == 0,
        PreferenceError::EmptyFileFormat => folder.len() > 0 && format.len() == 0,
        PreferenceError::UnsupportedFileFormat(f) => folder.len() > 0 && format.len() > 0
            && !supported_format(format) && f@ == format,
        PreferenceError::RootDirectory(s) => folder.len() > 0 && supported_format(format)
            && is_root_path(folder) && s@ == folder,
        PreferenceError::SystemDirectory(s) => folder.len() > 0 && supported_format(format)
            && !is_root_path(folder) && in_system_dir(folder) && s@ == folder,
    }
}

/// The message of a preference error.
pub open spec fn preference_message(e: PreferenceError) -> Seq<char> {
    match e {
        PreferenceError::EmptySaveFolder => "Save folder path is empty"@,
        PreferenceError::EmptyFileFormat => "File format is empty"@,
        PreferenceError::UnsupportedFileFormat(f) => "Unsupported file format: "@ + f@,
        PreferenceError::RootDirectory(s) => "Save folder path appears to be a system directory (root): "@
            + s@,
        PreferenceError::SystemDirectory(s) => "Save folder path appears to be a system directory: "@ + s@,
    }
}

impl PreferenceError {
    /// The message of the error.
    pub fn to_string(&self) -> (r: String)
        ensures
            r@ == preference_message(*self),
    {
        match self {
            PreferenceError::EmptySaveFolder => String::from_str("Save folder path is empty"),
            PreferenceError::EmptyFileFormat => String::from_str("File format is empty"),
            PreferenceError::UnsupportedFileFormat(f) => String::from_str(
                "Unsupported file format: ",
            ).concat(f.as_str()),
            PreferenceError::RootDirectory(s) => String::from_str(
                "Save folder path appears to be a system directory (root): ",
            ).concat(s.as_str()),
            PreferenceError::SystemDirectory(s) => String::from_str(
                "Save folder path appears to be a system directory: ",
            ).concat(s.as_str()),
        }
    }
}

/// The system directory at position `i`.
fn system_dir_at(i: usize) -> (r: Vec<char>)
    requires
        i < system_dirs().len(),
    ensures
        r@ == system_dirs()[i as int],
{
    let s: &str = match i {
        0 => "/usr/bin",
        1 => "/bin",
        2 => "/sbin",
        3 => "/etc",
        4 => "/var",
        5 => "/sys",
        6 => "/proc",
        7 => "/System32",
        8 => "C:\\System32",
        9 => "C:\\Windows\\System32",
        10 => "/Windows",
        11 => "C:\\Windows",
        12 => "/Program Files",
        13 => "C:\\Program Files",
        14 => "/System",
        _ => "C:\\System",
    };
    chars_of(s)
}

/// Whether `p` is the directory `dir` or lies inside it.
fn within_exec(p: &Vec<char>, dir: &Vec<char>) -> (r: bool)
    ensures
        r == within(p@, dir@),
{
    eq_chars(p, dir) || starts_with_chars(p, &concat_str(dir, "/")) || starts_with_chars(
        p,
        &concat_str(dir, "\\"),
    )
}

/// Whether `p` is, or lies inside, a system directory.
fn in_system_dir_exec(p: &Vec<char>) -> (r: bool)
    ensures
        r == in_system_dir(p@),
{
    let n: usize = 16;
    assert(system_dirs().len() == 16);
    let mut i: usize = 0;
    while i < n
        invariant
            n == system_dirs().len(),
            i <= n,
            forall|j: int| 0 <= j < i ==> !within(p@, #[trigger] system_dirs()[j]),
        decreases n - i,
    {
        let d = system_dir_at(i);
        if within_exec(p, &d) {
            return true;
        }
        i = i + 1;
    }
    false
}

/// Checks that preferences are usable: a save folder and a supported file
/// format are set, and the folder is neither a root nor a system directory.
pub fn validate_preference_integrity(preferences: &RecordingPreferences) -> (r: Result<(), PreferenceError>)
    ensures
        r is Ok <==> preferences_valid(*preferences),
        r matches Err(e) ==> reports(*preferences, e),
{
    let folder = chars_of(preferences.save_folder.as_str());
    if folder.len() == 0 {
        return Err(PreferenceError::EmptySaveFolder);
    }
    let format = chars_of(preferences.file_format.as_str());
    if format.len() == 0 {
        return Err(PreferenceError::EmptyFileFormat);
    }
    if !(eq_str(&format, "mp4") || eq_str(&format, "wav") || eq_str(&format, "m4a")) {
        return Err(PreferenceError::UnsupportedFileFormat(preferences.file_format.clone()));
    }
    if eq_str(&folder, "/") || eq_str(&folder, "C:\\") || eq_str(&folder, "\\") {
        return Err(PreferenceError::RootDirectory(preferences.save_folder.clone()));
    }
    if in_system_dir_exec(&folder) {
        return Err(PreferenceError::SystemDirectory(preferences.save_folder.clone()));
    }
    Ok(())
}

/// The default preferences, with `auto_save` on, a save folder and a file
/// format guaranteed.
pub fn ensure_default_values() -> (r: RecordingPreferences)
    ensures
        is_default_preferences(r),
{
    let mut prefs = RecordingPreferences::default();
    if !prefs.auto_save {
        prefs.auto_save = true;
    }
    if prefs.save_folder.as_str().is_empty() {
        prefs.save_folder = get_default_recordings_folder();
    }
    if prefs.file_format.as_str().is_empty() {
        prefs.file_format = String::from_str("mp4");
    }
    prefs
}

/// The file name of a recording made at `timestamp`.
pub open spec fn recording_file_name(timestamp: Seq<char>, format: Seq<char>) -> Seq<char> {
    "recording_"@ + timestamp + "."@ + format
}

/// The file name of a recording made at `timestamp` in `format`.
pub fn recording_filename(timestamp: &str, format: &str) -> (r: String)
    ensures
        r@ == recording_file_name(timestamp@, format@),
{
    String::from_str("recording_").concat(timestamp).concat(".").concat(format)
}

/// A time was read and its calendar fields are in chrono's ranges.
pub open spec fn recorded_time_valid(secs: Option<u64>) -> bool {
    &&& secs is Some
    &&& secs->0 <= i64::MAX
    &&& utc_calendar(secs->0 as i64) is Some
    &&& {
        let f = utc_calendar(secs->0 as i64)->0;
        timestamp_fields_valid(f.0, f.1, f.2, f.3, f.4, f.5)
    }
}

/// The compact timestamp of calendar fields given as a tuple.
pub open spec fn fields_timestamp(f: (i32, u32, u32, u32, u32, u32)) -> Seq<char> {
    compact_timestamp_spec(f.0, f.1, f.2, f.3, f.4, f.5)
}

/// The file name of a recording made `secs` seconds after the Unix epoch
/// (UTC): `recording_YYYYMMDD_HHMMSS.<format>`. `None` when there is no
/// time (`secs` is `None`) or the time is beyond any calendar date.
pub fn recording_filename_at(secs: Option<u64>, format: &str) -> (r: Option<String>)
    ensures
        match secs {
            None => r is None,
            Some(s) => if s <= i64::MAX && utc_calendar(s as i64) is Some {
                r matches Some(n) && n@ == recording_file_name(fields_timestamp(utc_calendar(s as i64)->0), format@)
            } else {
                r is None
            },
        },
        secs matches Some(s) && s <= 8_000_000_000_000 ==> r is Some,
        r is Some ==> recorded_time_valid(secs),
{
    let s = match secs {
        Some(s) => s,
        None => return None,
    };
    if s > 9223372036854775807u64 {
        return None;
    }
    match utc_fields_at(s as i64) {
        Some((y, mo, d, h, mi, sec)) => {
            let timestamp = compact_timestamp(y, mo, d, h, mi, sec);
            Some(recording_filename(timestamp.as_str(), format))
        },
        None => None,
    }
}

/// A file name for a recording made now: `recording_YYYYMMDD_HHMMSS.<format>`,
/// the timestamp written from the current UTC calendar fields (see
/// `recording_filename_at`). `None` when the system clock reads before the
/// Unix epoch.
pub fn generate_recording_filename(format: &str) -> (r: Option<String>)
    ensures
        r matches Some(n) ==> exists|y: i32, mo: u32, d: u32, h: u32, mi: u32, s: u32|
            timestamp_fields_valid(y, mo, d, h, mi, s) && n@ == recording_file_name(
                #[trigger] compact_timestamp_spec(y, mo, d, h, mi, s),
                format@,
            ),
{
    let secs = seconds_since_epoch();
    let r = recording_filename_at(secs, format);
    proof {
        if r is Some {
            let s = secs->0;
            let f = utc_calendar(s as i64)->0;
            assert(timestamp_fields_valid(f.0, f.1, f.2, f.3, f.4, f.5));
            assert(compact_timestamp_spec(f.0, f.1, f.2, f.3, f.4, f.5) == fields_timestamp(f));
        }
    }
    r
}

/// The only audio capture backend on this platform.
pub open spec fn screen_capture_backend() -> Seq<char> {
    "screencapturekit"@
}

/// Name and description of an audio capture backend.
#[derive(Clone, Debug)]
pub struct BackendInfo {
    pub id: String,
    pub name: String,
    pub description: String,
}

/// The audio capture backends available on this platform.
pub fn get_available_audio_backends() -> (r: Result<Vec<String>, String>)
    ensures
        r matches Ok(v) && v@.len() == 1 && v@[0]@ == screen_capture_backend(),
{
    let mut v: Vec<String> = Vec::new();
    v.push(String::from_str("screencapturekit"));
    Ok(v)
}

/// The audio capture backend in use.
pub fn get_current_audio_backend() -> (r: Result<String, String>)
    ensures
        r matches Ok(b) && b@ == screen_capture_backend(),
{
    Ok(String::from_str("screencapturekit"))
}

/// Selects the audio capture backend; only the platform's own is accepted.
pub fn set_audio_backend(backend: String) -> (r: Result<(), String>)
    ensures
        r is Ok <==> backend@ == screen_capture_backend(),
        r matches Err(m) ==> m@ == "Backend "@ + backend@ + " not available on this platform"@,
{
    let b = chars_of(backend.as_str());
    if !eq_str(&b, "screencapturekit") {
        return Err(String::from_str("Backend ").concat(backend.as_str()).concat(" not available on this platform"));
    }
    Ok(())
}

/// Name and description of each available audio capture backend.
pub fn get_audio_backend_info() -> (r: Result<Vec<BackendInfo>, String>)
    ensures
        r matches Ok(v) && v@.len() == 1 && v@[0].id@ == screen_capture_backend()
            && v@[0].name@ == "ScreenCaptureKit"@ && v@[0].description@ == "Default system audio capture"@,
{
    let mut v: Vec<BackendInfo> = Vec::new();
    v.push(
        BackendInfo {
            id: String::from_str("screencapturekit"),
            name: String::from_str("ScreenCaptureKit"),
            description: String::from_str("Default system audio capture"),
        },
    );
    Ok(v)
}

/// The default recordings folder, as text.
pub fn get_default_recordings_folder_path() -> (r: Result<String, String>)
    ensures
        r matches Ok(p) && (exists|d: Option<Seq<char>>| p@ == recordings_folder(d)),
{
    Ok(get_default_recordings_folder())
}

/// Folder selection is not available: no folder is ever selected.
pub fn select_recording_folder() -> (r: Result<Option<String>, String>)
    ensures
        r matches Ok(None),
{
    Ok(None)
}

} // verus!
