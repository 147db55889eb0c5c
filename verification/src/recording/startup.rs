//! Starting a recording: the verdicts on the pre-start diagnostics, and the
//! decisions of the start sequence with graceful degradation.
//!
//! When saving audio (MP4) cannot work, a recording still starts in
//! transcript-only mode: transcripts keep being saved and only the audio is
//! lost. Transcript-only mode is tried once; only when it fails too does the
//! recording fail.

use vstd::prelude::*;
use crate::text::{decimal, decimal_of};

verus! {

/// What diagnostics found about the auto-save setting.
#[derive(Clone, Debug)]
pub enum AutoSaveStatus {
    Enabled,
    Disabled,
    Corrupted,
    NotFound,
    /// Auto-save is forced off at the given place.
    HardcodedFalse(String),
}

/// What diagnostics found about the recording pipeline.
#[derive(Clone, Debug)]
pub enum PipelineStatus {
    Initialized,
    InitializationFailed(String),
    ParameterNotPropagated,
    IncrementalSaverMissing,
}

/// What diagnostics found about FFmpeg.
#[derive(Clone, Debug)]
pub enum DependencyStatus {
    Available,
    FFmpegNotFound,
    /// An FFmpeg of an unsupported version.
    FFmpegIncompatible(String),
}

/// Whether the pipeline may start after diagnostics: with critical issues the
/// report goes back to the user (no error); otherwise a corrupted or
/// hard-coded auto-save setting, or a pipeline that is not initialized, is an
/// error.
pub open spec fn diagnostics_verdict(has_critical_issues: bool, a: AutoSaveStatus, p: PipelineStatus) -> Result<(), Seq<char>> {
    if has_critical_issues {
        Ok(())
    } else {
        match a {
            AutoSaveStatus::Corrupted => Err("Auto-save parameter is corrupted and could not be repaired"@),
            AutoSaveStatus::HardcodedFalse(l) => Err("Auto-save parameter is hardcoded to false at: "@ + l@),
            _ => match p {
                PipelineStatus::Initialized => Ok(()),
                PipelineStatus::InitializationFailed(e) => Err("Pipeline initialization failed: "@ + e@),
                PipelineStatus::ParameterNotPropagated => Err(
                    "Auto-save parameter not properly propagated through pipeline"@,
                ),
                PipelineStatus::IncrementalSaverMissing => Err(
                    "IncrementalSaver not initialized when auto_save is true"@,
                ),
            },
        }
    }
}

/// A result with its error as plain text.
pub open spec fn result_view(r: Result<(), String>) -> Result<(), Seq<char>> {
    match r {
        Ok(()) => Ok(()),
        Err(m) => Err(m@),
    }
}

/// The verdict of the pre-start diagnostics (see `diagnostics_verdict`).
pub fn check_diagnostics(
    has_critical_issues: bool,
    auto_save_status: &AutoSaveStatus,
    pipeline_status: &PipelineStatus,
) -> (r: Result<(), String>)
    ensures
        result_view(r) == diagnostics_verdict(has_critical_issues, *auto_save_status, *pipeline_status),
{
    if has_critical_issues {
        return Ok(());
    }
    match auto_save_status {
        AutoSaveStatus::Corrupted => {
            return Err(String::from_str("Auto-save parameter is corrupted and could not be repaired"));
        },
        AutoSaveStatus::HardcodedFalse(l) => {
            return Err(String::from_str("Auto-save parameter is hardcoded to false at: ").concat(l.as_str()));
        },
        _ => {},
    }
    match pipeline_status {
        PipelineStatus::Initialized => Ok(()),
        PipelineStatus::InitializationFailed(e) => Err(
            String::from_str("Pipeline initialization failed: ").concat(e.as_str()),
        ),
        PipelineStatus::ParameterNotPropagated => Err(
            String::from_str("Auto-save parameter not properly propagated through pipeline"),
        ),
        PipelineStatus::IncrementalSaverMissing => Err(
            String::from_str("IncrementalSaver not initialized when auto_save is true"),
        ),
    }
}

/// Whether FFmpeg can merge recordings.
pub fn check_ffmpeg(status: &DependencyStatus) -> (r: Result<(), String>)
    ensures
        result_view(r) == match *status {
            DependencyStatus::Available => Ok(()),
            DependencyStatus::FFmpegNotFound => Err("FFmpeg not found in system PATH"@),
            DependencyStatus::FFmpegIncompatible(v) => Err("FFmpeg version not supported: "@ + v@),
        },
{
    match status {
        DependencyStatus::Available => Ok(()),
        DependencyStatus::FFmpegNotFound => Err(String::from_str("FFmpeg not found in system PATH")),
        DependencyStatus::FFmpegIncompatible(v) => Err(
            String::from_str("FFmpeg version not supported: ").concat(v.as_str()),
        ),
    }
}

/// The free space MP4 recording needs, in megabytes.
pub open spec fn min_free_mb() -> u64 {
    100
}

/// Whether there is enough free disk space for MP4 recording.
pub fn check_disk_space(available_mb: u64) -> (r: Result<(), String>)
    ensures
        r is Ok <==> available_mb >= min_free_mb(),
        r matches Err(m) ==> m@ == "Insufficient disk space: "@ + decimal(available_mb as nat)
            + " MB available, 100 MB required"@,
{
    if available_mb < 100 {
        return Err(
            String::from_str("Insufficient disk space: ").concat(decimal_of(available_mb).as_str()).concat(
                " MB available, 100 MB required",
            ),
        );
    }
    Ok(())
}

/// The next step of starting a recording.
#[derive(Debug)]
pub enum StartStep {
    /// Check that MP4 recording can work.
    CheckPrerequisites,
    /// Start the recording manager with this auto-save setting; when
    /// `degraded_because` is set, this is the transcript-only fallback.
    StartManager { auto_save: bool, degraded_because: Option<String> },
    /// The recording started (transcript-only when `degraded_because` is set).
    Started { degraded_because: Option<String> },
    /// The recording could not start.
    Failed(String),
}

/// A start step as plain values.
pub enum StartView {
    CheckPrerequisites,
    StartManager { auto_save: bool, degraded_because: Option<Seq<char>> },
    Started { degraded_because: Option<Seq<char>> },
    Failed(Seq<char>),
}

/// A start step as plain values.
pub open spec fn start_view(s: StartStep) -> StartView {
    match s {
        StartStep::CheckPrerequisites => StartView::CheckPrerequisites,
        StartStep::StartManager { auto_save, degraded_because } => StartView::StartManager {
            auto_save,
            degraded_because: crate::text::opt_view(degraded_because),
        },
        StartStep::Started { degraded_because } => StartView::Started {
            degraded_because: crate::text::opt_view(degraded_because),
        },
        StartStep::Failed(m) => StartView::Failed(m@),
    }
}

/// After the auto-save setting was traced: when it did not reach the pipeline
/// the recording degrades to transcript-only; otherwise the traced value is
/// used, and MP4 recording is checked first.
pub open spec fn after_trace_spec(propagated: bool, traced_auto_save: bool) -> StartView {
    if !propagated {
        StartView::StartManager {
            auto_save: false,
            degraded_because: Some("Auto-save parameter propagation failed"@),
        }
    } else if traced_auto_save {
        StartView::CheckPrerequisites
    } else {
        StartView::StartManager { auto_save: false, degraded_because: None }
    }
}

/// The first decision of starting a recording (see `after_trace_spec`).
pub fn after_parameter_trace(propagated: bool, traced_auto_save: bool) -> (r: StartStep)
    ensures
        start_view(r) == after_trace_spec(propagated, traced_auto_save),
{
    if !propagated {
        StartStep::StartManager {
            auto_save: false,
            degraded_because: Some(String::from_str("Auto-save parameter propagation failed")),
        }
    } else if traced_auto_save {
        StartStep::CheckPrerequisites
    } else {
        StartStep::StartManager { auto_save: false, degraded_because: None }
    }
}

/// After the MP4 prerequisites were checked: start with auto-save, or degrade.
pub open spec fn after_prerequisites_spec(check: Result<(), Seq<char>>) -> StartView {
    match check {
        Ok(()) => StartView::StartManager { auto_save: true, degraded_because: None },
        Err(e) => StartView::StartManager {
            auto_save: false,
            degraded_because: Some("MP4 recording prerequisites failed: "@ + e),
        },
    }
}

/// The decision after the MP4 prerequisites were checked.
pub fn after_prerequisites(check: &Result<(), String>) -> (r: StartStep)
    ensures
        start_view(r) == after_prerequisites_spec(result_view(*check)),
{
    match check {
        Ok(()) => StartStep::StartManager { auto_save: true, degraded_because: None },
        Err(e) => StartStep::StartManager {
            auto_save: false,
            degraded_because: Some(String::from_str("MP4 recording prerequisites failed: ").concat(e.as_str())),
        },
    }
}

/// After the recording manager tried to start. A transcript-only attempt ends
/// the sequence either way; a failed MP4 attempt degrades to transcript-only;
/// a failed start without auto-save fails.
pub open spec fn after_manager_spec(
    auto_save: bool,
    degraded_because: Option<Seq<char>>,
    outcome: Result<(), Seq<char>>,
    with_defaults: bool,
) -> StartView {
    match degraded_because {
        Some(reason) => match outcome {
            Ok(()) => StartView::Started { degraded_because: Some(reason) },
            Err(e) => StartView::Failed(
                if with_defaults {
                    "Critical failure: Even transcript-only mode with defaults failed: "@ + e
                } else {
                    "Critical failure: Even transcript-only mode failed to start: "@ + e
                },
            ),
        },
        None => match outcome {
            Ok(()) => StartView::Started { degraded_because: None },
            Err(e) => if auto_save {
                StartView::StartManager {
                    auto_save: false,
                    degraded_because: Some(
                        if with_defaults {
                            "Recording with defaults failed: "@ + e
                        } else {
                            "Recording manager startup failed: "@ + e
                        },
                    ),
                }
            } else {
                StartView::Failed(
                    if with_defaults {
                        "Failed to start recording with defaults: "@ + e
                    } else {
                        "Failed to start recording manager: "@ + e
                    },
                )
            },
        },
    }
}

/// The decision after the recording manager tried to start (with the given
/// devices, or with the default devices when `with_defaults`).
pub fn after_manager_start(
    auto_save: bool,
    degraded_because: Option<String>,
    outcome: &Result<(), String>,
    with_defaults: bool,
) -> (r: StartStep)
    ensures
        start_view(r) == after_manager_spec(
            auto_save,
            crate::text::opt_view(degraded_because),
            result_view(*outcome),
            with_defaults,
        ),
{
    match degraded_because {
        Some(reason) => match outcome {
            Ok(()) => StartStep::Started { degraded_because: Some(reason) },
            Err(e) => {
                let head: &str = if with_defaults {
                    "Critical failure: Even transcript-only mode with defaults failed: "
                } else {
                    "Critical failure: Even transcript-only mode failed to start: "
                };
                StartStep::Failed(String::from_str(head).concat(e.as_str()))
            },
        },
        None => match outcome {
            Ok(()) => StartStep::Started { degraded_because: None },
            Err(e) => {
                if auto_save {
                    let head: &str = if with_defaults {
                        "Recording with defaults failed: "
                    } else {
                        "Recording manager startup failed: "
                    };
                    StartStep::StartManager {
                        auto_save: false,
                        degraded_because: Some(String::from_str(head).concat(e.as_str())),
                    }
                } else {
                    let head: &str = if with_defaults {
                        "Failed to start recording with defaults: "
                    } else {
                        "Failed to start recording manager: "
                    };
                    StartStep::Failed(String::from_str(head).concat(e.as_str()))
                }
            },
        },
    }
}

/// Before starting with the default devices: an unhealthy system degrades to
/// transcript-only when auto-save was asked for, and fails otherwise.
pub open spec fn after_health_check_spec(auto_save: bool, unhealthy: bool) -> StartView {
    if unhealthy {
        if auto_save {
            StartView::StartManager {
                auto_save: false,
                degraded_because: Some("System diagnostic issues detected"@),
            }
        } else {
            StartView::Failed("System not healthy for recording - see diagnostic report"@)
        }
    } else {
        StartView::StartManager { auto_save, degraded_because: None }
    }
}

/// The first decision of starting with the default devices, given whether
/// diagnostics reported the system unhealthy with critical issues.
pub fn after_health_check(auto_save: bool, unhealthy: bool) -> (r: StartStep)
    ensures
        start_view(r) == after_health_check_spec(auto_save, unhealthy),
{
    if unhealthy {
        if auto_save {
            StartStep::StartManager {
                auto_save: false,
                degraded_because: Some(String::from_str("System diagnostic issues detected")),
            }
        } else {
            StartStep::Failed(String::from_str("System not healthy for recording - see diagnostic report"))
        }
    } else {
        StartStep::StartManager { auto_save, degraded_because: None }
    }
}

/// Starting degrades gracefully: a failed MP4 start is retried
/// transcript-only (never failed outright), the transcript-only attempt is the
/// last one, and no step before the manager starts fails the recording.
pub proof fn lemma_start_degrades_gracefully(
    degraded_because: Option<Seq<char>>,
    outcome: Result<(), Seq<char>>,
    with_defaults: bool,
    propagated: bool,
    traced: bool,
    check: Result<(), Seq<char>>,
)
    ensures
        outcome is Err ==> (after_manager_spec(true, None, outcome, with_defaults) matches StartView::StartManager {
            auto_save,
            degraded_because: Some(_),
        } && !auto_save),
        degraded_because is Some ==> (after_manager_spec(true, degraded_because, outcome, with_defaults) is Started
            || after_manager_spec(true, degraded_because, outcome, with_defaults) is Failed),
        after_manager_spec(false, degraded_because, outcome, with_defaults) matches StartView::StartManager { .. }
            ==> false,
        !(after_trace_spec(propagated, traced) is Failed),
        !(after_prerequisites_spec(check) is Failed),
        after_prerequisites_spec(check) matches StartView::StartManager { auto_save, .. } ==> (auto_save
            <==> check is Ok),
{
}

/// What a recording is doing.
#[derive(Clone, Debug)]
pub enum RecordingModeStatus {
    /// Not recording.
    NotRecording,
    /// Recording audio (MP4) and transcripts.
    FullRecording { checkpoints_created: u32 },
    /// Recording transcripts only (graceful degradation).
    TranscriptOnly { reason: String },
}

/// The mode of a recording, from whether it runs and how many audio
/// checkpoints it wrote: a running recording without checkpoints is
/// transcript-only.
pub fn recording_mode_status(is_recording: bool, checkpoint_count: usize) -> (r: RecordingModeStatus)
    ensures
        !is_recording ==> r is NotRecording,
        is_recording && checkpoint_count > 0 ==> (r matches RecordingModeStatus::FullRecording {
            checkpoints_created,
        } && checkpoints_created == checkpoint_count as u32),
        is_recording && checkpoint_count == 0 ==> (r matches RecordingModeStatus::TranscriptOnly { reason }
            && reason@ == "Graceful degradation due to MP4 recording failure"@),
{
    if !is_recording {
        return RecordingModeStatus::NotRecording;
    }
    if checkpoint_count > 0 {
        RecordingModeStatus::FullRecording { checkpoints_created: checkpoint_count as u32 }
    } else {
        RecordingModeStatus::TranscriptOnly {
            reason: String::from_str("Graceful degradation due to MP4 recording failure"),
        }
    }
}

/// Whether a recording runs in transcript-only mode: it runs and has written
/// no audio checkpoint.
pub fn is_in_graceful_degradation_mode(is_recording: bool, checkpoint_count: usize) -> (r: bool)
    ensures
        r == (is_recording && checkpoint_count == 0),
{
    is_recording && checkpoint_count == 0
}

/// MP4 recording can only be restored during an active recording.
pub fn check_restoration_possible(is_recording: bool) -> (r: Result<(), String>)
    ensures
        r is Ok <==> is_recording,
        r matches Err(m) ==> m@ == "No active recording session to restore"@,
{
    if !is_recording {
        return Err(String::from_str("No active recording session to restore"));
    }
    Ok(())
}

/// Recording with the default devices needs a microphone.
pub fn check_default_microphone(has_microphone: bool) -> (r: Result<(), String>)
    ensures
        r is Ok <==> has_microphone,
        r matches Err(m) ==> m@ == "No microphone device available"@,
{
    if !has_microphone {
        return Err(String::from_str("No microphone device available"));
    }
    Ok(())
}

/// The names the audio mixer is given for the two inputs (placeholders for a
/// missing device).
pub fn mixer_input_names(microphone: Option<String>, system: Option<String>) -> (r: (String, String))
    ensures
        r.0@ == match microphone {
            Some(m) => m@,
            None => "No Microphone"@,
        },
        r.1@ == match system {
            Some(s) => s@,
            None => "No System Audio"@,
        },
{
    let mic = match microphone {
        Some(m) => m,
        None => String::from_str("No Microphone"),
    };
    let sys = match system {
        Some(s) => s,
        None => String::from_str("No System Audio"),
    };
    (mic, sys)
}

/// An unhealthy system never records audio: when diagnostics report it
/// unhealthy, starting either falls back to transcript-only mode (auto-save
/// off, with the reason) or fails; a healthy one starts with the auto-save
/// setting asked for.
pub proof fn lemma_unhealthy_never_records_audio(auto_save: bool, unhealthy: bool)
    ensures
        unhealthy ==> match after_health_check_spec(auto_save, unhealthy) {
            StartView::StartManager { auto_save: a, degraded_because } => !a && degraded_because is Some,
            StartView::Failed(_) => !auto_save,
            _ => false,
        },
        !unhealthy ==> after_health_check_spec(auto_save, unhealthy) == (StartView::StartManager {
            auto_save,
            degraded_because: None,
        }),
{
}

} // verus!
