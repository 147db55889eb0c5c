use meetily::recording::startup::{
    after_health_check, after_manager_start, after_parameter_trace, after_prerequisites, check_default_microphone,
    check_diagnostics, check_disk_space, check_ffmpeg, check_restoration_possible, is_in_graceful_degradation_mode,
    mixer_input_names, recording_mode_status, AutoSaveStatus, DependencyStatus, PipelineStatus, RecordingModeStatus,
    StartStep,
};
use meetily::recording::transcripts::{
    after_chunk_write, chunk_action, first_folder_step, next_folder_step, ChunkAction, ChunkWriteStep, DeviceInfo,
    DropNotice, FolderStep, MeetingRecord, StopAndSave, StopStep, TranscriptStore,
};

#[test]
fn diagnostics_verdicts() {
    assert!(check_diagnostics(true, &AutoSaveStatus::Corrupted, &PipelineStatus::IncrementalSaverMissing).is_ok());
    assert_eq!(
        check_diagnostics(false, &AutoSaveStatus::Corrupted, &PipelineStatus::Initialized).unwrap_err(),
        "Auto-save parameter is corrupted and could not be repaired"
    );
    assert_eq!(
        check_diagnostics(false, &AutoSaveStatus::HardcodedFalse("saver.rs:10".to_string()), &PipelineStatus::Initialized)
            .unwrap_err(),
        "Auto-save parameter is hardcoded to false at: saver.rs:10"
    );
    assert_eq!(
        check_diagnostics(false, &AutoSaveStatus::NotFound, &PipelineStatus::InitializationFailed("no ffmpeg".to_string()))
            .unwrap_err(),
        "Pipeline initialization failed: no ffmpeg"
    );
    assert_eq!(
        check_diagnostics(false, &AutoSaveStatus::Enabled, &PipelineStatus::ParameterNotPropagated).unwrap_err(),
        "Auto-save parameter not properly propagated through pipeline"
    );
    assert!(check_diagnostics(false, &AutoSaveStatus::Disabled, &PipelineStatus::Initialized).is_ok());
}

#[test]
fn ffmpeg_and_disk_checks() {
    assert!(check_ffmpeg(&DependencyStatus::Available).is_ok());
    assert_eq!(check_ffmpeg(&DependencyStatus::FFmpegNotFound).unwrap_err(), "FFmpeg not found in system PATH");
    assert_eq!(
        check_ffmpeg(&DependencyStatus::FFmpegIncompatible("3.1".to_string())).unwrap_err(),
        "FFmpeg version not supported: 3.1"
    );
    assert!(check_disk_space(100).is_ok());
    assert_eq!(check_disk_space(99).unwrap_err(), "Insufficient disk space: 99 MB available, 100 MB required");
    assert_eq!(check_disk_space(0).unwrap_err(), "Insufficient disk space: 0 MB available, 100 MB required");
}

#[test]
fn start_sequence_degrades_to_transcripts() {
    // The traced setting did not reach the pipeline: transcript-only.
    match after_parameter_trace(false, true) {
        StartStep::StartManager { auto_save: false, degraded_because: Some(r) } => {
            assert_eq!(r, "Auto-save parameter propagation failed")
        }
        other => panic!("unexpected {:?}", other),
    }
    assert!(matches!(after_parameter_trace(true, true), StartStep::CheckPrerequisites));
    assert!(matches!(
        after_parameter_trace(true, false),
        StartStep::StartManager { auto_save: false, degraded_because: None }
    ));
    match after_prerequisites(&Err("disk full".to_string())) {
        StartStep::StartManager { auto_save: false, degraded_because: Some(r) } => {
            assert_eq!(r, "MP4 recording prerequisites failed: disk full")
        }
        other => panic!("unexpected {:?}", other),
    }
    match after_manager_start(true, None, &Err("busy".to_string()), false) {
        StartStep::StartManager { auto_save: false, degraded_because: Some(r) } => {
            assert_eq!(r, "Recording manager startup failed: busy")
        }
        other => panic!("unexpected {:?}", other),
    }
    match after_manager_start(false, Some("r".to_string()), &Err("busy".to_string()), false) {
        StartStep::Failed(m) => assert_eq!(m, "Critical failure: Even transcript-only mode failed to start: busy"),
        other => panic!("unexpected {:?}", other),
    }
    match after_manager_start(false, None, &Err("busy".to_string()), true) {
        StartStep::Failed(m) => assert_eq!(m, "Failed to start recording with defaults: busy"),
        other => panic!("unexpected {:?}", other),
    }
    match after_manager_start(false, Some("why".to_string()), &Ok(()), true) {
        StartStep::Started { degraded_because: Some(r) } => assert_eq!(r, "why"),
        other => panic!("unexpected {:?}", other),
    }
    match after_health_check(false, true) {
        StartStep::Failed(m) => assert_eq!(m, "System not healthy for recording - see diagnostic report"),
        other => panic!("unexpected {:?}", other),
    }
    assert!(matches!(after_health_check(true, false), StartStep::StartManager { auto_save: true, degraded_because: None }));
}

#[test]
fn recording_modes() {
    assert!(matches!(recording_mode_status(false, 5), RecordingModeStatus::NotRecording));
    assert!(matches!(
        recording_mode_status(true, 3),
        RecordingModeStatus::FullRecording { checkpoints_created: 3 }
    ));
    match recording_mode_status(true, 0) {
        RecordingModeStatus::TranscriptOnly { reason } => {
            assert_eq!(reason, "Graceful degradation due to MP4 recording failure")
        }
        other => panic!("unexpected {:?}", other),
    }
    assert!(is_in_graceful_degradation_mode(true, 0));
    assert!(!is_in_graceful_degradation_mode(true, 1));
    assert!(!is_in_graceful_degradation_mode(false, 0));
    assert_eq!(check_restoration_possible(false).unwrap_err(), "No active recording session to restore");
    assert!(check_restoration_possible(true).is_ok());
    assert_eq!(check_default_microphone(false).unwrap_err(), "No microphone device available");
    assert_eq!(
        mixer_input_names(None, Some("Speakers".to_string())),
        ("No Microphone".to_string(), "Speakers".to_string())
    );
}

#[test]
fn transcript_segments_upsert_by_sequence_id() {
    let mut store: TranscriptStore<&str> = TranscriptStore::new();
    assert!(!store.upsert(1, "hello"));
    assert!(!store.upsert(2, "world"));
    assert!(store.upsert(1, "hello there"));
    assert_eq!(store.len(), 2);
    assert_eq!(*store.get(0), "hello there");
    assert_eq!(store.sequence_id(0), 1);
    assert_eq!(*store.get(1), "world");
    assert_eq!(store.last(), Some(&"world"));
    store.clear();
    assert_eq!(store.len(), 0);
    assert_eq!(store.last(), None);
}

#[test]
fn audio_chunk_actions() {
    assert_eq!(chunk_action(false, true, true, 0, false), ChunkAction::Stop);
    assert_eq!(chunk_action(true, false, false, 0, false), ChunkAction::Discard);
    assert_eq!(chunk_action(true, true, true, 0, false), ChunkAction::Save);
    assert_eq!(
        chunk_action(true, true, false, 0, false),
        ChunkAction::Drop { dropped: 1, notice: DropNotice::Detailed }
    );
    assert_eq!(
        chunk_action(true, true, false, 99, true),
        ChunkAction::Drop { dropped: 100, notice: DropNotice::Reminder }
    );
    assert_eq!(
        chunk_action(true, true, false, 5, true),
        ChunkAction::Drop { dropped: 6, notice: DropNotice::Silent }
    );
    assert_eq!(
        chunk_action(true, true, false, u32::MAX, true),
        ChunkAction::Drop { dropped: 0, notice: DropNotice::Reminder }
    );
}

#[test]
fn meeting_folder_steps() {
    assert_eq!(first_folder_step(true, true), FolderStep::Initialize { with_checkpoints: true });
    assert_eq!(first_folder_step(false, true), FolderStep::Initialize { with_checkpoints: false });
    assert_eq!(first_folder_step(true, false), FolderStep::Done);
    assert_eq!(next_folder_step(true, false, true), FolderStep::Initialize { with_checkpoints: false });
    assert_eq!(next_folder_step(true, true, false), FolderStep::Initialize { with_checkpoints: false });
    assert_eq!(next_folder_step(false, false, true), FolderStep::Done);
    assert_eq!(next_folder_step(true, true, true), FolderStep::Done);
    let info = DeviceInfo { microphone: Some("Mic".to_string()), system_audio: None };
    assert_eq!(info.microphone.as_deref(), Some("Mic"));
}

#[test]
fn meeting_metadata_names_audio_only_when_saved() {
    let with_audio = MeetingRecord::initial("Standup", true);
    assert_eq!(with_audio.audio_file, "audio.mp4");
    assert_eq!(with_audio.meeting_name.as_deref(), Some("Standup"));
    assert_eq!(with_audio.transcript_file, "transcripts.json");
    assert_eq!(with_audio.sample_rate, 48000);
    assert_eq!(with_audio.status, "recording");
    assert_eq!(with_audio.version, "1.0");
    let mut transcripts_only = MeetingRecord::initial("Standup", false);
    assert_eq!(transcripts_only.audio_file, "");
    transcripts_only.complete();
    assert_eq!(transcripts_only.status, "completed");
    assert_eq!(transcripts_only.audio_file, "");
}

#[test]
fn failed_chunk_writes_are_retried_three_times() {
    assert_eq!(after_chunk_write(0, true), ChunkWriteStep::Written);
    assert_eq!(after_chunk_write(0, false), ChunkWriteStep::Retry { wait_ms: 1000, retry: 1 });
    assert_eq!(after_chunk_write(2, false), ChunkWriteStep::Retry { wait_ms: 1000, retry: 3 });
    assert_eq!(after_chunk_write(3, false), ChunkWriteStep::StopAudio);
    assert_eq!(after_chunk_write(3, true), ChunkWriteStep::Written);
}

#[test]
fn segments_are_cleared_only_after_an_audio_save() {
    let (_, no_audio) = StopAndSave::begin(false, true, true);
    assert!(!no_audio.clears_segments());
    assert!(StopStep::Done(Ok(Some("a.mp4".to_string()))).clears_segments());
    assert!(!StopStep::Done(Err("x".to_string())).clears_segments());
}
