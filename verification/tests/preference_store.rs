use meetily::recording::preference_store::{
    after_validated_load, find_persistence_mismatches, load_recording_preferences,
    load_recording_preferences_internal, validate_preference_persistence, LoadOutcome, PreferenceSave, SaveStage,
    SaveStep, StoredPreferences, WriteFailure,
};
use meetily::recording::preferences::RecordingPreferences;
use meetily::recording::transcripts::{StopAndSave, StopStep};

fn prefs(folder: &str, format: &str) -> RecordingPreferences {
    RecordingPreferences {
        save_folder: folder.to_string(),
        auto_save: true,
        file_format: format.to_string(),
        preferred_mic_device: None,
        preferred_system_device: None,
    }
}

fn done(step: SaveStep) -> Result<(), String> {
    match step {
        SaveStep::Done(r) => r,
        other => panic!("expected the end, got {:?}", other),
    }
}

#[test]
fn mismatches_are_reported_per_field() {
    let expected = prefs("/home/u/rec", "mp4");
    let mut got = prefs("/home/u/rec/", "wav");
    got.auto_save = false;
    got.preferred_mic_device = Some("Mic".to_string());
    let m = find_persistence_mismatches(&expected, &got);
    assert_eq!(
        m,
        vec![
            "auto_save parameter not persisted correctly! Expected: true, Got: false".to_string(),
            "file_format not persisted correctly! Expected: mp4, Got: wav".to_string(),
            "preferred_mic_device not persisted correctly! Expected: None, Got: Some(\"Mic\")".to_string(),
        ]
    );
    let moved = prefs("/home/u/other", "mp4");
    assert_eq!(
        find_persistence_mismatches(&expected, &moved),
        vec!["save_folder not persisted correctly! Expected: \"/home/u/rec\", Got: \"/home/u/other\"".to_string()]
    );
    assert!(find_persistence_mismatches(&expected, &prefs("/home/u/rec", "mp4")).is_empty());
}

#[test]
fn persistence_check_messages() {
    let expected = prefs("/home/u/rec", "mp4");
    assert_eq!(
        validate_preference_persistence(&expected, &Err("no store".to_string())).unwrap_err(),
        "Failed to reload preferences for validation: no store"
    );
    assert_eq!(
        validate_preference_persistence(&expected, &Ok(prefs("/home/u/rec", "wav"))).unwrap_err(),
        "Preference persistence validation failed: file_format not persisted correctly! Expected: mp4, Got: wav"
    );
    assert!(validate_preference_persistence(&expected, &Ok(prefs("/home/u/rec", "mp4"))).is_ok());
    let root = prefs("/", "mp4");
    assert_eq!(
        validate_preference_persistence(&root, &Ok(prefs("/", "mp4"))).unwrap_err(),
        "Reloaded preferences failed integrity check: Save folder path appears to be a system directory (root): /"
    );
}

#[test]
fn saving_invalid_preferences_writes_nothing() {
    let (save, step) = PreferenceSave::begin(prefs("/home/u", "ogg"));
    assert_eq!(done(step).unwrap_err(), "Cannot save invalid preferences: Unsupported file format: ogg");
    assert_eq!(save.stage(), SaveStage::Finished);
}

#[test]
fn successful_save_round_trip() {
    let p = prefs("/home/u/rec", "mp4");
    let (mut save, step) = PreferenceSave::begin(p.clone());
    assert!(matches!(step, SaveStep::LoadBackup));
    match save.backup_loaded(None) {
        SaveStep::Write(w) => assert_eq!(w.save_folder, "/home/u/rec"),
        other => panic!("unexpected {:?}", other),
    }
    assert!(matches!(save.written(Ok(())), SaveStep::Reload));
    match save.reloaded(Ok(p.clone())) {
        SaveStep::EnsureFolder(f) => assert_eq!(f, "/home/u/rec"),
        other => panic!("unexpected {:?}", other),
    }
    assert!(done(save.folder_ensured(Ok(()))).is_ok());
}

#[test]
fn failed_round_trip_rolls_back() {
    let p = prefs("/home/u/rec", "mp4");
    let backup = prefs("/home/u/old", "wav");
    let (mut save, _) = PreferenceSave::begin(p.clone());
    let _ = save.backup_loaded(Some(backup.clone()));
    let _ = save.written(Ok(()));
    match save.reloaded(Ok(prefs("/home/u/rec", "m4a"))) {
        SaveStep::Write(w) => assert_eq!(w.file_format, "wav"),
        other => panic!("unexpected {:?}", other),
    }
    assert_eq!(save.stage(), SaveStage::AwaitRollbackWrite);
    assert!(matches!(save.written(Ok(())), SaveStep::Reload));
    assert_eq!(
        done(save.reloaded(Ok(backup))).unwrap_err(),
        "Preference save failed validation and was rolled back: Preference persistence validation failed: file_format not persisted correctly! Expected: mp4, Got: m4a"
    );
}

#[test]
fn failures_without_backup_or_rollback() {
    let p = prefs("/home/u/rec", "mp4");
    let (mut save, _) = PreferenceSave::begin(p.clone());
    let _ = save.backup_loaded(None);
    let _ = save.written(Ok(()));
    assert_eq!(
        done(save.reloaded(Err("gone".to_string()))).unwrap_err(),
        "Preference save failed validation and no backup available for rollback: Failed to reload preferences for validation: gone"
    );

    let (mut save, _) = PreferenceSave::begin(p.clone());
    let _ = save.backup_loaded(Some(prefs("/home/u/old", "mp4")));
    assert_eq!(
        done(save.written(Err(WriteFailure::Persist("read-only".to_string())))).unwrap_err(),
        "Failed to save store to disk: read-only"
    );

    let (mut save, _) = PreferenceSave::begin(p.clone());
    let _ = save.backup_loaded(Some(prefs("/home/u/old", "mp4")));
    let _ = save.written(Ok(()));
    let _ = save.reloaded(Err("gone".to_string()));
    assert_eq!(
        done(save.written(Err(WriteFailure::StoreAccess("locked".to_string())))).unwrap_err(),
        "Preference save failed validation and rollback failed: Failed to reload preferences for validation: gone (rollback error: Failed to access store for rollback: locked)"
    );

    let (mut save, _) = PreferenceSave::begin(p);
    let _ = save.backup_loaded(Some(prefs("", "mp4")));
    let _ = save.written(Ok(()));
    assert_eq!(
        done(save.reloaded(Err("gone".to_string()))).unwrap_err(),
        "Preference save failed validation and rollback failed: Failed to reload preferences for validation: gone (rollback error: Cannot rollback to invalid backup preferences: Save folder path is empty)"
    );
}

#[test]
fn loading_preferences() {
    let p = prefs("/home/u/rec", "wav");
    assert_eq!(load_recording_preferences(StoredPreferences::Found(p.clone())).unwrap().file_format, "wav");
    let d = load_recording_preferences(StoredPreferences::Unreadable("bad json".to_string())).unwrap();
    assert!(d.auto_save);
    assert_eq!(d.file_format, "mp4");
    assert_eq!(
        load_recording_preferences_internal(StoredPreferences::Unavailable("x".to_string())).unwrap_err(),
        "Failed to access preference store: x"
    );
    assert_eq!(
        load_recording_preferences_internal(StoredPreferences::Unreadable("y".to_string())).unwrap_err(),
        "Failed to deserialize preferences: y"
    );
    assert!(load_recording_preferences_internal(StoredPreferences::Missing).unwrap().auto_save);
    assert!(matches!(after_validated_load(Ok(p)), LoadOutcome::Use(_)));
    assert!(matches!(after_validated_load(Ok(prefs("/", "mp4"))), LoadOutcome::Repair));
    assert!(matches!(after_validated_load(Err("z".to_string())), LoadOutcome::UseDefaults));
}

#[test]
fn stop_and_save_sequence() {
    let (_, step) = StopAndSave::begin(false, true, true);
    assert!(matches!(step, StopStep::Done(Ok(None))));

    let (mut stop, step) = StopAndSave::begin(true, true, true);
    assert!(matches!(step, StopStep::FinalizeAudio));
    assert!(matches!(stop.audio_finalized(Ok("/m/audio.mp4".to_string())), StopStep::WriteTranscripts));
    assert!(matches!(stop.transcripts_written(Ok(())), StopStep::CheckTranscriptFile));
    assert!(matches!(stop.transcript_file_checked(true), StopStep::UpdateMetadata));
    match stop.metadata_written(Ok(())) {
        StopStep::Done(Ok(Some(p))) => assert_eq!(p, "/m/audio.mp4"),
        other => panic!("unexpected {:?}", other),
    }

    let (mut stop, _) = StopAndSave::begin(true, true, false);
    let _ = stop.audio_finalized(Ok("/m/a.mp4".to_string()));
    let _ = stop.transcripts_written(Ok(()));
    match stop.transcript_file_checked(false) {
        StopStep::Done(Err(m)) => assert_eq!(m, "Transcript file verification failed"),
        other => panic!("unexpected {:?}", other),
    }

    let (mut stop, _) = StopAndSave::begin(true, false, false);
    match stop.audio_finalized(Err("ffmpeg".to_string())) {
        StopStep::Done(Err(m)) => assert_eq!(m, "Failed to finalize audio: ffmpeg"),
        other => panic!("unexpected {:?}", other),
    }
    let (mut stop, _) = StopAndSave::begin(true, false, true);
    match stop.audio_finalized(Ok("/x.mp4".to_string())) {
        StopStep::Done(Ok(Some(p))) => assert_eq!(p, "/x.mp4"),
        other => panic!("unexpected {:?}", other),
    }
}
