//! Loading and saving recording preferences.
//!
//! Saving checks the preferences first, keeps the stored ones as a backup,
//! writes, reads the result back and compares it field by field. When the
//! check fails the backup is written back (a rollback), so the store never
//! keeps preferences that did not survive the round trip. The store itself is
//! driven by the caller: each step here says what to do next, and the caller
//! reports how it went.

use vstd::prelude::*;
use crate::recording::preferences::{
    is_default_preferences, preference_message, preferences_valid, reports, validate_preference_integrity,
    RecordingPreferences,
};
use crate::text::{chars_of, join, join_chars, opt_view, seqs, string_of};

verus! {

/// What `Debug` writes for the path `p` (as `{:?}` on a `std::path::Path`).
pub uninterp spec fn path_debug(p: Seq<char>) -> Seq<char>;

/// What `Debug` writes for the string `s` (as `{:?}` on a `str`).
pub uninterp spec fn str_debug(s: Seq<char>) -> Seq<char>;

/// Whether two paths are equal as `std::path::Path`s (component by component).
pub uninterp spec fn same_path(a: Seq<char>, b: Seq<char>) -> bool;

/// `{:?}` on the path `p`; the text is only named.
#[verifier::external_body]
fn path_debug_text(p: &str) -> (r: String)
    ensures
        r@ == path_debug(p@),
{
    format!("{:?}", std::path::Path::new(p))
}

/// `{:?}` on the string `s`; the text is only named.
#[verifier::external_body]
fn str_debug_text(s: &str) -> (r: String)
    ensures
        r@ == str_debug(s@),
{
    format!("{:?}", s)
}

/// `Path::eq`: paths are compared by their components. `Path` implements
/// `Eq`, so equal text gives equal paths; otherwise the result is only named.
#[verifier::external_body]
fn paths_equal(a: &str, b: &str) -> (r: bool)
    ensures
        r == same_path(a@, b@),
        a@ == b@ ==> r,
{
    std::path::Path::new(a) == std::path::Path::new(b)
}

/// `true` or `false`, as `Display` writes a `bool`.
pub open spec fn bool_text(b: bool) -> Seq<char> {
    if b {
        "true"@
    } else {
        "false"@
    }
}

/// `{:?}` on an optional string.
pub open spec fn opt_debug(o: Option<Seq<char>>) -> Seq<char> {
    match o {
        Some(s) => "Some("@ + str_debug(s) + ")"@,
        None => "None"@,
    }
}

/// The message list with `m` added when `differs`.
pub open spec fn note_if(ms: Seq<Seq<char>>, differs: bool, m: Seq<char>) -> Seq<Seq<char>> {
    if differs {
        ms.push(m)
    } else {
        ms
    }
}

/// What differs between the preferences that were saved and those read back,
/// one message per field, in field order.
pub open spec fn persistence_mismatches(e: RecordingPreferences, r: RecordingPreferences) -> Seq<Seq<char>> {
    let m1 = note_if(
        seq![],
        e.auto_save != r.auto_save,
        "auto_save parameter not persisted correctly! Expected: "@ + bool_text(e.auto_save) + ", Got: "@
            + bool_text(r.auto_save),
    );
    let m2 = note_if(
        m1,
        !same_path(r.save_folder@, e.save_folder@),
        "save_folder not persisted correctly! Expected: "@ + path_debug(e.save_folder@) + ", Got: "@
            + path_debug(r.save_folder@),
    );
    let m3 = note_if(
        m2,
        r.file_format@ != e.file_format@,
        "file_format not persisted correctly! Expected: "@ + e.file_format@ + ", Got: "@ + r.file_format@,
    );
    let m4 = note_if(
        m3,
        opt_view(r.preferred_mic_device) != opt_view(e.preferred_mic_device),
        "preferred_mic_device not persisted correctly! Expected: "@ + opt_debug(opt_view(e.preferred_mic_device))
            + ", Got: "@ + opt_debug(opt_view(r.preferred_mic_device)),
    );
    note_if(
        m4,
        opt_view(r.preferred_system_device) != opt_view(e.preferred_system_device),
        "preferred_system_device not persisted correctly! Expected: "@ + opt_debug(
            opt_view(e.preferred_system_device),
        ) + ", Got: "@ + opt_debug(opt_view(r.preferred_system_device)),
    )
}

/// `true` or `false`.
fn bool_text_exec(b: bool) -> (r: Vec<char>)
    ensures
        r@ == bool_text(b),
{
    if b {
        chars_of("true")
    } else {
        chars_of("false")
    }
}

/// `{:?}` on an optional string.
fn opt_debug_exec(o: &Option<String>) -> (r: Vec<char>)
    ensures
        r@ == opt_debug(opt_view(*o)),
{
    match o {
        Some(s) => {
            let mut v = chars_of("Some(");
            crate::text::append_chars(&mut v, &chars_of(str_debug_text(s.as_str()).as_str()));
            crate::text::append_chars(&mut v, &chars_of(")"));
            v
        },
        None => chars_of("None"),
    }
}

/// Whether two optional strings are equal.
fn opt_eq(a: &Option<String>, b: &Option<String>) -> (r: bool)
    ensures
        r == (opt_view(*a) == opt_view(*b)),
{
    match (a, b) {
        (Some(x), Some(y)) => crate::text::eq_chars(&chars_of(x.as_str()), &chars_of(y.as_str())),
        (None, None) => true,
        _ => false,
    }
}

/// The pieces of a message, concatenated.
fn message(parts: Vec<Vec<char>>) -> (r: Vec<char>)
    ensures
        r@ == join(seqs(parts@), Seq::empty()),
{
    join_chars(&parts, &Vec::new())
}

/// The fields whose stored value differs from the saved one (see
/// `persistence_mismatches`).
pub fn find_persistence_mismatches(expected: &RecordingPreferences, reloaded: &RecordingPreferences) -> (r: Vec<String>)
    ensures
        r@.map_values(|s: String| s@) == persistence_mismatches(*expected, *reloaded),
{
    let mut out: Vec<Vec<char>> = Vec::new();
    let ghost e = *expected;
    let ghost g = *reloaded;
    if reloaded.auto_save != expected.auto_save {
        let mut m = chars_of("auto_save parameter not persisted correctly! Expected: ");
        crate::text::append_chars(&mut m, &bool_text_exec(expected.auto_save));
        crate::text::append_chars(&mut m, &chars_of(", Got: "));
        crate::text::append_chars(&mut m, &bool_text_exec(reloaded.auto_save));
        out.push(m);
    }
    if !paths_equal(reloaded.save_folder.as_str(), expected.save_folder.as_str()) {
        let mut m = chars_of("save_folder not persisted correctly! Expected: ");
        crate::text::append_chars(&mut m, &chars_of(path_debug_text(expected.save_folder.as_str()).as_str()));
        crate::text::append_chars(&mut m, &chars_of(", Got: "));
        crate::text::append_chars(&mut m, &chars_of(path_debug_text(reloaded.save_folder.as_str()).as_str()));
        out.push(m);
    }
    if !crate::text::eq_chars(&chars_of(reloaded.file_format.as_str()), &chars_of(expected.file_format.as_str())) {
        let mut m = chars_of("file_format not persisted correctly! Expected: ");
        crate::text::append_chars(&mut m, &chars_of(expected.file_format.as_str()));
        crate::text::append_chars(&mut m, &chars_of(", Got: "));
        crate::text::append_chars(&mut m, &chars_of(reloaded.file_format.as_str()));
        out.push(m);
    }
    if !opt_eq(&reloaded.preferred_mic_device, &expected.preferred_mic_device) {
        let mut m = chars_of("preferred_mic_device not persisted correctly! Expected: ");
        crate::text::append_chars(&mut m, &opt_debug_exec(&expected.preferred_mic_device));
        crate::text::append_chars(&mut m, &chars_of(", Got: "));
        crate::text::append_chars(&mut m, &opt_debug_exec(&reloaded.preferred_mic_device));
        out.push(m);
    }
    if !opt_eq(&reloaded.preferred_system_device, &expected.preferred_system_device) {
        let mut m = chars_of("preferred_system_device not persisted correctly! Expected: ");
        crate::text::append_chars(&mut m, &opt_debug_exec(&expected.preferred_system_device));
        crate::text::append_chars(&mut m, &chars_of(", Got: "));
        crate::text::append_chars(&mut m, &opt_debug_exec(&reloaded.preferred_system_device));
        out.push(m);
    }
    assert(seqs(out@) == persistence_mismatches(e, g));
    let mut r: Vec<String> = Vec::new();
    let mut i: usize = 0;
    while i < out.len()
        invariant
            i <= out.len(),
            r@.len() == i,
            forall|j: int| 0 <= j < i ==> #[trigger] r@[j]@ == out@[j]@,
        decreases out.len() - i,
    {
        let t = string_of(&out[i]);
        r.push(t);
        i = i + 1;
    }
    assert(r@.map_values(|s: String| s@) =~= seqs(out@));
    r
}

/// The message of the first integrity check that `p` fails (see
/// `validate_preference_integrity`).
pub open spec fn integrity_problem(p: RecordingPreferences) -> Seq<char> {
    let folder = p.save_folder@;
    let format = p.file_format@;
    if folder.len() == 0 {
        "Save folder path is empty"@
    } else if format.len() == 0 {
        "File format is empty"@
    } else if !crate::recording::preferences::supported_format(format) {
        "Unsupported file format: "@ + format
    } else if crate::recording::preferences::is_root_path(folder) {
        "Save folder path appears to be a system directory (root): "@ + folder
    } else {
        "Save folder path appears to be a system directory: "@ + folder
    }
}

/// The integrity check of `p`, with its message.
pub fn integrity_check(p: &RecordingPreferences) -> (r: Result<(), String>)
    ensures
        r is Ok <==> preferences_valid(*p),
        r matches Err(m) ==> m@ == integrity_problem(*p),
{
    proof {
        reveal_strlit("mp4");
        reveal_strlit("wav");
        reveal_strlit("m4a");
    }
    match validate_preference_integrity(p) {
        Ok(()) => Ok(()),
        Err(e) => Err(e.to_string()),
    }
}

/// Preferences read from the store, with a failure as text.
pub open spec fn loaded_view(r: Result<RecordingPreferences, String>) -> Result<RecordingPreferences, Seq<char>> {
    match r {
        Ok(p) => Ok(p),
        Err(m) => Err(m@),
    }
}

/// Whether saved preferences survived the round trip: they could be read
/// back, every field came back as written, and what came back passes the
/// integrity check.
pub open spec fn persistence_verdict(e: RecordingPreferences, reloaded: Result<RecordingPreferences, Seq<char>>) -> Result<(), Seq<char>> {
    match reloaded {
        Err(m) => Err("Failed to reload preferences for validation: "@ + m),
        Ok(r) => if persistence_mismatches(e, r).len() > 0 {
            Err("Preference persistence validation failed: "@ + join(persistence_mismatches(e, r), "; "@))
        } else if !preferences_valid(r) {
            Err("Reloaded preferences failed integrity check: "@ + integrity_problem(r))
        } else {
            Ok(())
        },
    }
}

/// Checks that saved preferences survived the round trip (see
/// `persistence_verdict`).
pub fn validate_preference_persistence(
    expected: &RecordingPreferences,
    reloaded: &Result<RecordingPreferences, String>,
) -> (r: Result<(), String>)
    ensures
        match r {
            Ok(()) => persistence_verdict(*expected, loaded_view(*reloaded)) is Ok,
            Err(m) => persistence_verdict(*expected, loaded_view(*reloaded)) == Err::<(), Seq<char>>(m@),
        },
{
    let got = match reloaded {
        Err(m) => {
            return Err(String::from_str("Failed to reload preferences for validation: ").concat(m.as_str()));
        },
        Ok(p) => p,
    };
    let mismatches = find_persistence_mismatches(expected, got);
    if mismatches.len() > 0 {
        let mut parts: Vec<Vec<char>> = Vec::new();
        let mut i: usize = 0;
        while i < mismatches.len()
            invariant
                i <= mismatches.len(),
                parts@.len() == i,
                forall|j: int| 0 <= j < i ==> #[trigger] parts@[j]@ == mismatches@[j]@,
            decreases mismatches.len() - i,
        {
            parts.push(chars_of(mismatches[i].as_str()));
            i = i + 1;
        }
        assert(seqs(parts@) =~= mismatches@.map_values(|s: String| s@));
        let summary = join_chars(&parts, &chars_of("; "));
        return Err(String::from_str("Preference persistence validation failed: ").concat(string_of(&summary).as_str()));
    }
    match integrity_check(got) {
        Ok(()) => Ok(()),
        Err(m) => Err(String::from_str("Reloaded preferences failed integrity check: ").concat(m.as_str())),
    }
}

/// A copy of preferences.
pub fn copy_preferences(p: &RecordingPreferences) -> (r: RecordingPreferences)
    ensures
        r == *p,
{
    RecordingPreferences {
        save_folder: p.save_folder.clone(),
        auto_save: p.auto_save,
        file_format: p.file_format.clone(),
        preferred_mic_device: match &p.preferred_mic_device {
            Some(d) => Some(d.clone()),
            None => None,
        },
        preferred_system_device: match &p.preferred_system_device {
            Some(d) => Some(d.clone()),
            None => None,
        },
    }
}

/// Why writing preferences to the store failed.
#[derive(Clone, Debug)]
pub enum WriteFailure {
    /// The store could not be opened.
    StoreAccess(String),
    /// The preferences could not be serialized.
    Serialize(String),
    /// The store could not be written to disk.
    Persist(String),
}

/// A write failure as plain values: its kind (0 store, 1 serialize, 2 disk)
/// and text.
pub open spec fn failure_view(f: WriteFailure) -> (int, Seq<char>) {
    match f {
        WriteFailure::StoreAccess(e) => (0, e@),
        WriteFailure::Serialize(e) => (1, e@),
        WriteFailure::Persist(e) => (2, e@),
    }
}

/// The message of a failed write of new preferences.
pub open spec fn save_write_message(f: (int, Seq<char>)) -> Seq<char> {
    if f.0 == 0 {
        "Failed to access store: "@ + f.1
    } else if f.0 == 1 {
        "Failed to serialize preferences: "@ + f.1
    } else {
        "Failed to save store to disk: "@ + f.1
    }
}

/// The message of a failed write of the backup.
pub open spec fn rollback_write_message(f: (int, Seq<char>)) -> Seq<char> {
    if f.0 == 0 {
        "Failed to access store for rollback: "@ + f.1
    } else if f.0 == 1 {
        "Failed to serialize backup preferences: "@ + f.1
    } else {
        "Failed to persist rollback to disk: "@ + f.1
    }
}

/// The message when the check failed (`failure`) and the rollback too.
pub open spec fn rollback_failed(failure: Seq<char>, rollback_error: Seq<char>) -> Seq<char> {
    "Preference save failed validation and rollback failed: "@ + failure + " (rollback error: "@ + rollback_error
        + ")"@
}

/// Where a save stands.
#[derive(Clone, Copy, Debug, PartialEq, Eq, Structural)]
pub enum SaveStage {
    /// Waiting for the stored preferences (the backup).
    AwaitBackup,
    /// Waiting for the new preferences to be written.
    AwaitWrite,
    /// Waiting for the stored preferences to be read back.
    AwaitReload,
    /// Waiting for the recordings folder to be created.
    AwaitFolder,
    /// Waiting for the backup to be written back.
    AwaitRollbackWrite,
    /// Waiting for the restored preferences to be read back.
    AwaitRollbackReload,
    /// Finished.
    Finished,
}

/// What the caller does next.
#[derive(Debug)]
pub enum SaveStep {
    /// Read the stored preferences and report them (`None` if they cannot be read).
    LoadBackup,
    /// Write these preferences to the store and persist it.
    Write(RecordingPreferences),
    /// Read the stored preferences back.
    Reload,
    /// Create this recordings folder (and its parents) if it does not exist.
    EnsureFolder(String),
    /// The save is over, with this outcome.
    Done(Result<(), String>),
}

/// A save step as plain values.
pub enum SaveStepView {
    LoadBackup,
    Write(RecordingPreferences),
    Reload,
    EnsureFolder(Seq<char>),
    Done(Result<(), Seq<char>>),
}

/// A save step as plain values.
pub open spec fn save_step_view(s: SaveStep) -> SaveStepView {
    match s {
        SaveStep::LoadBackup => SaveStepView::LoadBackup,
        SaveStep::Write(p) => SaveStepView::Write(p),
        SaveStep::Reload => SaveStepView::Reload,
        SaveStep::EnsureFolder(f) => SaveStepView::EnsureFolder(f@),
        SaveStep::Done(r) => SaveStepView::Done(
            match r {
                Ok(()) => Ok(()),
                Err(m) => Err(m@),
            },
        ),
    }
}

/// The state of a save as plain values.
pub struct SaveState {
    pub stage: SaveStage,
    pub preferences: RecordingPreferences,
    pub backup: Option<RecordingPreferences>,
    pub failure: Seq<char>,
}

/// Starting to save `p`: invalid preferences are refused before anything is
/// written.
pub open spec fn save_begin(p: RecordingPreferences) -> (SaveState, SaveStepView) {
    if preferences_valid(p) {
        (SaveState { stage: SaveStage::AwaitBackup, preferences: p, backup: None, failure: seq![] }, SaveStepView::LoadBackup)
    } else {
        (
            SaveState { stage: SaveStage::Finished, preferences: p, backup: None, failure: seq![] },
            SaveStepView::Done(Err("Cannot save invalid preferences: "@ + integrity_problem(p))),
        )
    }
}

/// The backup was read: write the new preferences.
pub open spec fn save_after_backup(s: SaveState, backup: Option<RecordingPreferences>) -> (SaveState, SaveStepView) {
    (SaveState { stage: SaveStage::AwaitWrite, backup: backup, ..s }, SaveStepView::Write(s.preferences))
}

/// A write finished (of the new preferences, or of the backup).
pub open spec fn save_after_write(s: SaveState, outcome: Result<(), (int, Seq<char>)>) -> (SaveState, SaveStepView) {
    let done = SaveState { stage: SaveStage::Finished, ..s };
    if s.stage == SaveStage::AwaitWrite {
        match outcome {
            Err(f) => (done, SaveStepView::Done(Err(save_write_message(f)))),
            Ok(()) => (SaveState { stage: SaveStage::AwaitReload, ..s }, SaveStepView::Reload),
        }
    } else {
        match outcome {
            Err(f) => (done, SaveStepView::Done(Err(rollback_failed(s.failure, rollback_write_message(f))))),
            Ok(()) => (SaveState { stage: SaveStage::AwaitRollbackReload, ..s }, SaveStepView::Reload),
        }
    }
}

/// The stored preferences were read back (after the write, or after the
/// rollback).
pub open spec fn save_after_reload(s: SaveState, reloaded: Result<RecordingPreferences, Seq<char>>) -> (SaveState, SaveStepView) {
    let done = SaveState { stage: SaveStage::Finished, ..s };
    if s.stage == SaveStage::AwaitReload {
        match persistence_verdict(s.preferences, reloaded) {
            Ok(()) => (SaveState { stage: SaveStage::AwaitFolder, ..s }, SaveStepView::EnsureFolder(s.preferences.save_folder@)),
            Err(v) => match s.backup {
                None => (
                    done,
                    SaveStepView::Done(Err("Preference save failed validation and no backup available for rollback: "@ + v)),
                ),
                Some(b) => if preferences_valid(b) {
                    (SaveState { stage: SaveStage::AwaitRollbackWrite, failure: v, ..s }, SaveStepView::Write(b))
                } else {
                    (
                        SaveState { failure: v, ..done },
                        SaveStepView::Done(Err(rollback_failed(v, "Cannot rollback to invalid backup preferences: "@ + integrity_problem(b)))),
                    )
                },
            },
        }
    } else {
        match reloaded {
            Err(e) => (done, SaveStepView::Done(Err(rollback_failed(s.failure, "Failed to validate rollback: "@ + e)))),
            Ok(q) => if s.backup matches Some(b) && q.auto_save != b.auto_save {
                (done, SaveStepView::Done(Err(rollback_failed(s.failure, "Rollback validation failed: auto_save mismatch"@))))
            } else {
                (
                    done,
                    SaveStepView::Done(Err("Preference save failed validation and was rolled back: "@ + s.failure)),
                )
            },
        }
    }
}

/// The recordings folder was created (or not).
pub open spec fn save_after_folder(s: SaveState, outcome: Result<(), Seq<char>>) -> (SaveState, SaveStepView) {
    (SaveState { stage: SaveStage::Finished, ..s }, SaveStepView::Done(outcome))
}

/// A save of recording preferences, driven step by step.
pub struct PreferenceSave {
    stage: SaveStage,
    preferences: RecordingPreferences,
    backup: Option<RecordingPreferences>,
    failure: String,
}

impl PreferenceSave {
    /// The state as plain values.
    pub closed spec fn state(&self) -> SaveState {
        SaveState { stage: self.stage, preferences: self.preferences, backup: self.backup, failure: self.failure@ }
    }

    /// Only valid preferences are ever written: the new ones once they passed
    /// the check, and a backup only when it passes it too.
    #[verifier::type_invariant]
    closed spec fn writes_only_valid(&self) -> bool {
        &&& self.stage != SaveStage::Finished ==> preferences_valid(self.preferences)
        &&& (self.stage == SaveStage::AwaitRollbackWrite || self.stage == SaveStage::AwaitRollbackReload) ==> (
        self.backup matches Some(b) && preferences_valid(b))
    }

    /// The stage of the save.
    pub fn stage(&self) -> (r: SaveStage)
        ensures
            r == self.state().stage,
    {
        self.stage
    }

    /// Starts saving `preferences`.
    pub fn begin(preferences: RecordingPreferences) -> (r: (PreferenceSave, SaveStep))
        ensures
            (r.0.state(), save_step_view(r.1)) == save_begin(preferences),
    {
        match integrity_check(&preferences) {
            Err(m) => {
                let step = SaveStep::Done(Err(String::from_str("Cannot save invalid preferences: ").concat(m.as_str())));
                (PreferenceSave { stage: SaveStage::Finished, preferences, backup: None, failure: String::new() }, step)
            },
            Ok(()) => (
                PreferenceSave { stage: SaveStage::AwaitBackup, preferences, backup: None, failure: String::new() },
                SaveStep::LoadBackup,
            ),
        }
    }

    /// The stored preferences were read (`None` if they could not be).
    pub fn backup_loaded(&mut self, backup: Option<RecordingPreferences>) -> (r: SaveStep)
        requires
            old(self).state().stage == SaveStage::AwaitBackup,
        ensures
            (final(self).state(), save_step_view(r)) == save_after_backup(old(self).state(), backup),
    {
        proof {
            use_type_invariant(&*self);
        }
        let p = copy_preferences(&self.preferences);
        self.backup = backup;
        self.stage = SaveStage::AwaitWrite;
        SaveStep::Write(p)
    }

    /// A requested write finished.
    pub fn written(&mut self, outcome: Result<(), WriteFailure>) -> (r: SaveStep)
        requires
            old(self).state().stage == SaveStage::AwaitWrite || old(self).state().stage
                == SaveStage::AwaitRollbackWrite,
        ensures
            (final(self).state(), save_step_view(r)) == save_after_write(
                old(self).state(),
                match outcome {
                    Ok(()) => Ok(()),
                    Err(f) => Err(failure_view(f)),
                },
            ),
    {
        proof {
            use_type_invariant(&*self);
        }
        let rolling_back = self.stage == SaveStage::AwaitRollbackWrite;
        match outcome {
            Ok(()) => {
                self.stage = if rolling_back {
                    SaveStage::AwaitRollbackReload
                } else {
                    SaveStage::AwaitReload
                };
                SaveStep::Reload
            },
            Err(f) => {
                let (head, detail): (&str, String) = match f {
                    WriteFailure::StoreAccess(e) => (
                        if rolling_back {
                            "Failed to access store for rollback: "
                        } else {
                            "Failed to access store: "
                        },
                        e,
                    ),
                    WriteFailure::Serialize(e) => (
                        if rolling_back {
                            "Failed to serialize backup preferences: "
                        } else {
                            "Failed to serialize preferences: "
                        },
                        e,
                    ),
                    WriteFailure::Persist(e) => (
                        if rolling_back {
                            "Failed to persist rollback to disk: "
                        } else {
                            "Failed to save store to disk: "
                        },
                        e,
                    ),
                };
                let m = String::from_str(head).concat(detail.as_str());
                self.stage = SaveStage::Finished;
                if rolling_back {
                    SaveStep::Done(Err(self.rollback_failed(m.as_str())))
                } else {
                    SaveStep::Done(Err(m))
                }
            },
        }
    }

    /// The message when the check failed and the rollback too.
    fn rollback_failed(&self, rollback_error: &str) -> (r: String)
        ensures
            r@ == rollback_failed(self.failure@, rollback_error@),
    {
        String::from_str("Preference save failed validation and rollback failed: ").concat(self.failure.as_str()).concat(
            " (rollback error: ",
        ).concat(rollback_error).concat(")")
    }

    /// The stored preferences were read back (or could not be).
    pub fn reloaded(&mut self, reloaded: Result<RecordingPreferences, String>) -> (r: SaveStep)
        requires
            old(self).state().stage == SaveStage::AwaitReload || old(self).state().stage
                == SaveStage::AwaitRollbackReload,
        ensures
            (final(self).state(), save_step_view(r)) == save_after_reload(old(self).state(), loaded_view(reloaded)),
    {
        proof {
            use_type_invariant(&*self);
        }
        if self.stage == SaveStage::AwaitReload {
            match validate_preference_persistence(&self.preferences, &reloaded) {
                Ok(()) => {
                    self.stage = SaveStage::AwaitFolder;
                    SaveStep::EnsureFolder(self.preferences.save_folder.clone())
                },
                Err(v) => {
                    let b = match &self.backup {
                        None => {
                            self.stage = SaveStage::Finished;
                            return SaveStep::Done(
                                Err(
                                    String::from_str(
                                        "Preference save failed validation and no backup available for rollback: ",
                                    ).concat(v.as_str()),
                                ),
                            );
                        },
                        Some(b) => copy_preferences(b),
                    };
                    match integrity_check(&b) {
                        Ok(()) => {
                            self.failure = v;
                            self.stage = SaveStage::AwaitRollbackWrite;
                            SaveStep::Write(b)
                        },
                        Err(m) => {
                            self.stage = SaveStage::Finished;
                            self.failure = v;
                            let e = String::from_str("Cannot rollback to invalid backup preferences: ").concat(m.as_str());
                            SaveStep::Done(Err(self.rollback_failed(e.as_str())))
                        },
                    }
                },
            }
        } else {
            self.stage = SaveStage::Finished;
            match reloaded {
                Err(e) => {
                    let m = String::from_str("Failed to validate rollback: ").concat(e.as_str());
                    SaveStep::Done(Err(self.rollback_failed(m.as_str())))
                },
                Ok(q) => {
                    let mismatch = match &self.backup {
                        Some(b) => q.auto_save != b.auto_save,
                        None => false,
                    };
                    if mismatch {
                        SaveStep::Done(Err(self.rollback_failed("Rollback validation failed: auto_save mismatch")))
                    } else {
                        SaveStep::Done(
                            Err(
                                String::from_str("Preference save failed validation and was rolled back: ").concat(
                                    self.failure.as_str(),
                                ),
                            ),
                        )
                    }
                },
            }
        }
    }

    /// The recordings folder was created (or could not be).
    pub fn folder_ensured(&mut self, outcome: Result<(), String>) -> (r: SaveStep)
        requires
            old(self).state().stage == SaveStage::AwaitFolder,
        ensures
            (final(self).state(), save_step_view(r)) == save_after_folder(
                old(self).state(),
                match outcome {
                    Ok(()) => Ok(()),
                    Err(m) => Err(m@),
                },
            ),
    {
        self.stage = SaveStage::Finished;
        SaveStep::Done(outcome)
    }
}

/// A save never writes preferences that fail the integrity check, and it
/// ends successfully only after the preferences came back from the store as
/// written.
pub proof fn lemma_save_writes_only_valid_preferences(
    p: RecordingPreferences,
    s: SaveState,
    backup: Option<RecordingPreferences>,
    reloaded: Result<RecordingPreferences, Seq<char>>,
    outcome: Result<(), (int, Seq<char>)>,
)
    requires
        s.stage != SaveStage::Finished ==> preferences_valid(s.preferences),
    ensures
        save_begin(p).1 is LoadBackup <==> preferences_valid(p),
        save_after_backup(s, backup).1 matches SaveStepView::Write(q) ==> (s.stage != SaveStage::Finished ==> preferences_valid(q)),
        s.stage == SaveStage::AwaitReload ==> (save_after_reload(s, reloaded).1 matches SaveStepView::Write(q)
            ==> preferences_valid(q)),
        s.stage == SaveStage::AwaitReload ==> (save_after_reload(s, reloaded).1 is EnsureFolder <==> persistence_verdict(
            s.preferences,
            reloaded,
        ) is Ok),
        s.stage == SaveStage::AwaitRollbackReload ==> save_after_reload(s, reloaded).1 matches SaveStepView::Done(Err(_)),
        save_after_write(s, outcome).1 matches SaveStepView::Done(r) ==> r is Err,
{
}

/// What the preference store held.
#[derive(Debug)]
pub enum StoredPreferences {
    /// The store could not be opened.
    Unavailable(String),
    /// The store holds no preferences.
    Missing,
    /// The stored preferences could not be deserialized.
    Unreadable(String),
    /// The stored preferences.
    Found(RecordingPreferences),
}

/// The preferences in the store, where a store that cannot be opened or read
/// is an error and an empty one gives the defaults.
pub fn load_recording_preferences_internal(stored: StoredPreferences) -> (r: Result<RecordingPreferences, String>)
    ensures
        match stored {
            StoredPreferences::Unavailable(e) => r matches Err(m) && m@ == "Failed to access preference store: "@ + e@,
            StoredPreferences::Unreadable(e) => r matches Err(m) && m@ == "Failed to deserialize preferences: "@ + e@,
            StoredPreferences::Missing => r matches Ok(p) && is_default_preferences(p),
            StoredPreferences::Found(p) => r == Ok::<RecordingPreferences, String>(p),
        },
{
    match stored {
        StoredPreferences::Unavailable(e) => Err(String::from_str("Failed to access preference store: ").concat(e.as_str())),
        StoredPreferences::Unreadable(e) => Err(String::from_str("Failed to deserialize preferences: ").concat(e.as_str())),
        StoredPreferences::Missing => Ok(RecordingPreferences::default()),
        StoredPreferences::Found(p) => Ok(p),
    }
}

/// The preferences in the store, or the defaults when there are none or they
/// cannot be read; loading never fails.
pub fn load_recording_preferences(stored: StoredPreferences) -> (r: Result<RecordingPreferences, String>)
    ensures
        stored matches StoredPreferences::Found(p) ==> r == Ok::<RecordingPreferences, String>(p),
        !(stored is Found) ==> (r matches Ok(p) && is_default_preferences(p)),
{
    match stored {
        StoredPreferences::Found(p) => Ok(p),
        _ => Ok(RecordingPreferences::default()),
    }
}

/// What loading with validation does with what the store gave.
#[derive(Debug)]
pub enum LoadOutcome {
    /// Use these preferences.
    Use(RecordingPreferences),
    /// The stored preferences are invalid: restore and save the defaults.
    Repair,
    /// The store failed: use the defaults (and leave the store alone).
    UseDefaults,
}

/// Loading with validation: valid stored preferences are used, invalid ones
/// are repaired with the defaults, and a failing store gives the defaults.
pub fn after_validated_load(loaded: Result<RecordingPreferences, String>) -> (r: LoadOutcome)
    ensures
        match loaded {
            Ok(p) => if preferences_valid(p) {
                r == LoadOutcome::Use(p)
            } else {
                r is Repair
            },
            Err(_) => r is UseDefaults,
        },
{
    match loaded {
        Ok(p) => match integrity_check(&p) {
            Ok(()) => LoadOutcome::Use(p),
            Err(_) => LoadOutcome::Repair,
        },
        Err(_) => LoadOutcome::UseDefaults,
    }
}

/// A save gets past its read-back check only when the store gave back what
/// was saved: the same `auto_save`, format and preferred devices, and the same
/// folder path. Only then does it go on to create the folder and succeed;
/// otherwise it fails or rolls back.
pub proof fn lemma_save_succeeds_only_on_matching_read_back(s: SaveState, q: RecordingPreferences)
    requires
        s.stage == SaveStage::AwaitReload,
        save_after_reload(s, Ok(q)).1 is EnsureFolder,
    ensures
        q.auto_save == s.preferences.auto_save,
        same_path(q.save_folder@, s.preferences.save_folder@),
        q.file_format@ == s.preferences.file_format@,
        opt_view(q.preferred_mic_device) == opt_view(s.preferences.preferred_mic_device),
        opt_view(q.preferred_system_device) == opt_view(s.preferences.preferred_system_device),
        preferences_valid(q),
{
    let e = s.preferences;
    assert(persistence_mismatches(e, q).len() == 0);
}

} // verus!
