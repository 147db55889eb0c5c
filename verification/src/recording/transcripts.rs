//! What a recording keeps while it runs: the transcript segments (one per
//! sequence number, in arrival order), the devices it records from, and the
//! rules for what happens to each audio chunk.

use vstd::prelude::*;

verus! {

/// The devices a recording uses.
#[derive(Clone, Debug)]
pub struct DeviceInfo {
    pub microphone: Option<String>,
    pub system_audio: Option<String>,
}

/// No sequence number occurs twice.
pub open spec fn ids_distinct<T>(es: Seq<(u64, T)>) -> bool {
    forall|i: int, j: int| 0 <= i < j < es.len() ==> es[i].0 != es[j].0
}

/// The position of the segment with sequence number `id`, if any.
pub open spec fn position_of<T>(es: Seq<(u64, T)>, id: u64) -> Option<int> {
    if exists|i: int| 0 <= i < es.len() && es[i].0 == id {
        Some(choose|i: int| 0 <= i < es.len() && es[i].0 == id)
    } else {
        None
    }
}

/// The segments after an upsert: the segment with the same sequence number is
/// replaced in place, otherwise the new one goes last.
pub open spec fn upserted<T>(es: Seq<(u64, T)>, id: u64, segment: T) -> Seq<(u64, T)> {
    match position_of(es, id) {
        Some(i) => es.update(i, (id, segment)),
        None => es.push((id, segment)),
    }
}

/// The transcript segments of a recording, keyed by sequence number.
pub struct TranscriptStore<T> {
    segments: Vec<(u64, T)>,
}

impl<T> TranscriptStore<T> {
    /// The segments with their sequence numbers, in order.
    pub closed spec fn entries(&self) -> Seq<(u64, T)> {
        self.segments@
    }

    #[verifier::type_invariant]
    closed spec fn one_segment_per_id(&self) -> bool {
        ids_distinct(self.segments@)
    }

    /// An empty store.
    pub fn new() -> (r: Self)
        ensures
            r.entries() == Seq::<(u64, T)>::empty(),
    {
        TranscriptStore { segments: Vec::new() }
    }

    /// The number of segments.
    pub fn len(&self) -> (n: usize)
        ensures
            n == self.entries().len(),
    {
        self.segments.len()
    }

    /// The segment at position `i`.
    pub fn get(&self, i: usize) -> (r: &T)
        requires
            i < self.entries().len(),
        ensures
            *r == self.entries()[i as int].1,
    {
        &self.segments[i].1
    }

    /// The sequence number of the segment at position `i`.
    pub fn sequence_id(&self, i: usize) -> (r: u64)
        requires
            i < self.entries().len(),
        ensures
            r == self.entries()[i as int].0,
    {
        self.segments[i].0
    }

    /// The last segment, if any.
    pub fn last(&self) -> (r: Option<&T>)
        ensures
            self.entries().len() == 0 ==> r is None,
            self.entries().len() > 0 ==> r == Some(&self.entries().last().1),
    {
        if self.segments.len() == 0 {
            None
        } else {
            Some(&self.segments[self.segments.len() - 1].1)
        }
    }

    /// Where the segment with sequence number `id` is.
    fn find(&self, id: u64) -> (r: Option<usize>)
        ensures
            match r {
                Some(i) => i < self.entries().len() && self.entries()[i as int].0 == id,
                None => forall|i: int| 0 <= i < self.entries().len() ==> self.entries()[i].0 != id,
            },
    {
        let mut i: usize = 0;
        while i < self.segments.len()
            invariant
                i <= self.segments@.len(),
                forall|j: int| 0 <= j < i ==> self.segments@[j].0 != id,
            decreases self.segments@.len() - i,
        {
            if self.segments[i].0 == id {
                return Some(i);
            }
            i = i + 1;
        }
        None
    }

    /// Adds a segment, or replaces the one with the same sequence number;
    /// returns whether one was replaced.
    pub fn upsert(&mut self, sequence_id: u64, segment: T) -> (replaced: bool)
        ensures
            final(self).entries() == upserted(old(self).entries(), sequence_id, segment),
            replaced == (position_of(old(self).entries(), sequence_id) is Some),
    {
        proof {
            use_type_invariant(&*self);
        }
        let ghost es = self.segments@;
        match self.find(sequence_id) {
            Some(i) => {
                proof {
                    assert(position_of(es, sequence_id) is Some);
                    let k = choose|k: int| 0 <= k < es.len() && es[k].0 == sequence_id;
                    assert(k == i);
                }
                let mut segments = Vec::new();
                std::mem::swap(&mut segments, &mut self.segments);
                segments.set(i, (sequence_id, segment));
                assert(ids_distinct(segments@));
                self.segments = segments;
                true
            },
            None => {
                let mut segments = Vec::new();
                std::mem::swap(&mut segments, &mut self.segments);
                segments.push((sequence_id, segment));
                assert(ids_distinct(segments@));
                self.segments = segments;
                false
            },
        }
    }

    /// Removes every segment.
    pub fn clear(&mut self)
        ensures
            final(self).entries() == Seq::<(u64, T)>::empty(),
    {
        self.segments = Vec::new();
    }
}

/// An upsert leaves exactly one segment with its sequence number, holding the
/// new segment; every other sequence number keeps its segment and position,
/// and the number of segments grows by one exactly when the number is new.
pub proof fn lemma_upsert_keeps_one_per_id<T>(es: Seq<(u64, T)>, id: u64, segment: T)
    requires
        ids_distinct(es),
    ensures
        ids_distinct(upserted(es, id, segment)),
        position_of(upserted(es, id, segment), id) matches Some(i) && upserted(es, id, segment)[i] == (id, segment),
        forall|i: int| 0 <= i < es.len() && es[i].0 != id ==> upserted(es, id, segment)[i] == es[i],
        upserted(es, id, segment).len() == es.len() + if position_of(es, id) is Some { 0int } else { 1int },
{
    let u = upserted(es, id, segment);
    match position_of(es, id) {
        Some(i) => {
            assert(u[i].0 == id);
        },
        None => {
            assert(u[es.len() as int].0 == id);
        },
    }
    let p = position_of(u, id);
    assert(p is Some);
    let k = choose|k: int| 0 <= k < u.len() && u[k].0 == id;
    match position_of(es, id) {
        Some(i) => {
            assert(k == i);
        },
        None => {
            assert(k == es.len());
        },
    }
}

/// What happens to an audio chunk that reaches the saver.
#[derive(Clone, Copy, Debug, PartialEq, Eq, Structural)]
pub enum ChunkAction {
    /// Saving stopped: end the accumulation.
    Stop,
    /// Add the chunk to the audio checkpoints.
    Save,
    /// Audio is not saved (transcripts only): discard the chunk.
    Discard,
    /// Audio should be saved but the saver is missing: drop the chunk and say
    /// so, in detail (first time) or as a periodic reminder.
    Drop { dropped: u32, notice: DropNotice },
}

/// How a dropped chunk is reported.
#[derive(Clone, Copy, Debug, PartialEq, Eq, Structural)]
pub enum DropNotice {
    /// Explain the degradation and how to recover.
    Detailed,
    /// Remind how many chunks were dropped so far.
    Reminder,
    /// Say nothing.
    Silent,
}

/// The action for a chunk (see `ChunkAction`): `dropped_before` counts the
/// chunks dropped so far (wrapping like an atomic counter), `notified` says
/// whether the degradation was already explained.
pub open spec fn chunk_action_spec(
    saving: bool,
    save_audio: bool,
    has_saver: bool,
    dropped_before: u32,
    notified: bool,
) -> ChunkAction {
    if !saving {
        ChunkAction::Stop
    } else if !save_audio {
        ChunkAction::Discard
    } else if has_saver {
        ChunkAction::Save
    } else {
        let count = if dropped_before == u32::MAX { 0u32 } else { (dropped_before + 1) as u32 };
        ChunkAction::Drop {
            dropped: count,
            notice: if count == 1 || !notified {
                DropNotice::Detailed
            } else if count % 100 == 0 {
                DropNotice::Reminder
            } else {
                DropNotice::Silent
            },
        }
    }
}

/// The action for an audio chunk that reaches the saver.
pub fn chunk_action(
    saving: bool,
    save_audio: bool,
    has_saver: bool,
    dropped_before: u32,
    notified: bool,
) -> (r: ChunkAction)
    ensures
        r == chunk_action_spec(saving, save_audio, has_saver, dropped_before, notified),
{
    if !saving {
        return ChunkAction::Stop;
    }
    if !save_audio {
        return ChunkAction::Discard;
    }
    if has_saver {
        return ChunkAction::Save;
    }
    let count = dropped_before.wrapping_add(1);
    let notice = if count == 1 || !notified {
        DropNotice::Detailed
    } else if count % 100 == 0 {
        DropNotice::Reminder
    } else {
        DropNotice::Silent
    };
    ChunkAction::Drop { dropped: count, notice }
}

/// How the meeting folder is set up when accumulation starts.
#[derive(Clone, Copy, Debug, PartialEq, Eq, Structural)]
pub enum FolderStep {
    /// Create the meeting folder, with the audio checkpoints directory or not.
    Initialize { with_checkpoints: bool },
    /// Nothing (more) to set up.
    Done,
}

/// The first folder step: with a meeting name, a folder with checkpoints when
/// audio is saved, and without them otherwise; without a name, nothing.
pub fn first_folder_step(auto_save: bool, has_meeting_name: bool) -> (r: FolderStep)
    ensures
        r == if has_meeting_name {
            FolderStep::Initialize { with_checkpoints: auto_save }
        } else {
            FolderStep::Done
        },
{
    if has_meeting_name {
        FolderStep::Initialize { with_checkpoints: auto_save }
    } else {
        FolderStep::Done
    }
}

/// Whether setting up the meeting folder succeeded: the folder (and, with
/// checkpoints, the audio saver) was created and its initial metadata was
/// written.
pub open spec fn setup_succeeded(created: bool, metadata_written: bool) -> bool {
    created && metadata_written
}

/// The folder step after an attempt: a failed attempt with checkpoints falls
/// back to a folder without them (transcripts only); otherwise set-up ends.
/// An attempt failed when the folder or audio saver could not be created or
/// when its metadata could not be written.
pub fn next_folder_step(with_checkpoints: bool, created: bool, metadata_written: bool) -> (r: FolderStep)
    ensures
        r == if !setup_succeeded(created, metadata_written) && with_checkpoints {
            FolderStep::Initialize { with_checkpoints: false }
        } else {
            FolderStep::Done
        },
{
    let succeeded = created && metadata_written;
    if !succeeded && with_checkpoints {
        FolderStep::Initialize { with_checkpoints: false }
    } else {
        FolderStep::Done
    }
}

/// The meeting metadata written into the meeting folder, apart from its
/// times (creation and completion time and the duration, kept by the caller).
#[derive(Clone, Debug)]
pub struct MeetingRecord {
    /// Format version of the metadata.
    pub version: String,
    /// Name of the meeting.
    pub meeting_name: Option<String>,
    /// Devices recorded from.
    pub devices: DeviceInfo,
    /// The audio file in the meeting folder (empty when audio is not saved).
    pub audio_file: String,
    /// The transcript file in the meeting folder.
    pub transcript_file: String,
    /// Sample rate of the saved audio.
    pub sample_rate: u32,
    /// `recording`, `completed` or `error`.
    pub status: String,
}

/// The audio file a meeting folder names: `audio.mp4` when audio is saved
/// (checkpoints are kept), none otherwise.
pub open spec fn audio_file_name(with_checkpoints: bool) -> Seq<char> {
    if with_checkpoints {
        "audio.mp4"@
    } else {
        ""@
    }
}

impl MeetingRecord {
    /// The metadata of a meeting folder just set up: version `1.0`, the
    /// meeting's name, no devices yet, the audio file when audio is saved,
    /// `transcripts.json`, 48000 Hz, status `recording`.
    pub fn initial(meeting_name: &str, with_checkpoints: bool) -> (r: Self)
        ensures
            r.version@ == "1.0"@,
            r.meeting_name matches Some(n) && n@ == meeting_name@,
            r.devices.microphone is None,
            r.devices.system_audio is None,
            r.audio_file@ == audio_file_name(with_checkpoints),
            r.transcript_file@ == "transcripts.json"@,
            r.sample_rate == 48000,
            r.status@ == "recording"@,
    {
        let audio_file = if with_checkpoints {
            String::from_str("audio.mp4")
        } else {
            String::from_str("")
        };
        MeetingRecord {
            version: String::from_str("1.0"),
            meeting_name: Some(String::from_str(meeting_name)),
            devices: DeviceInfo { microphone: None, system_audio: None },
            audio_file,
            transcript_file: String::from_str("transcripts.json"),
            sample_rate: 48000,
            status: String::from_str("recording"),
        }
    }

    /// Marks the recording completed; every other field stays.
    pub fn complete(&mut self)
        ensures
            final(self).status@ == "completed"@,
            final(self).version == old(self).version,
            final(self).meeting_name == old(self).meeting_name,
            final(self).devices == old(self).devices,
            final(self).audio_file == old(self).audio_file,
            final(self).transcript_file == old(self).transcript_file,
            final(self).sample_rate == old(self).sample_rate,
    {
        self.status = String::from_str("completed");
    }
}

/// What to do after writing an audio chunk to the checkpoints.
#[derive(Clone, Copy, Debug, PartialEq, Eq, Structural)]
pub enum ChunkWriteStep {
    /// The chunk was written.
    Written,
    /// Wait `wait_ms` milliseconds and write the chunk again (retry number
    /// `retry`).
    Retry { wait_ms: u64, retry: u32 },
    /// The chunk could not be written: stop saving audio and keep saving
    /// transcripts only.
    StopAudio,
}

/// Retries of a failed chunk write.
pub open spec fn max_chunk_write_retries() -> u32 {
    3
}

/// The wait before each retry of a failed chunk write, in milliseconds.
pub open spec fn chunk_write_retry_delay_ms() -> u64 {
    1000
}

/// The step after a chunk write that was retried `retries_done` times.
pub open spec fn chunk_write_step_spec(retries_done: u32, succeeded: bool) -> ChunkWriteStep {
    if succeeded {
        ChunkWriteStep::Written
    } else if retries_done < max_chunk_write_retries() {
        ChunkWriteStep::Retry { wait_ms: chunk_write_retry_delay_ms(), retry: (retries_done + 1) as u32 }
    } else {
        ChunkWriteStep::StopAudio
    }
}

/// A failed chunk write is retried up to three times, a second apart; when
/// every retry fails too, audio saving stops (transcripts only).
pub fn after_chunk_write(retries_done: u32, succeeded: bool) -> (r: ChunkWriteStep)
    ensures
        r == chunk_write_step_spec(retries_done, succeeded),
{
    if succeeded {
        ChunkWriteStep::Written
    } else if retries_done < 3 {
        ChunkWriteStep::Retry { wait_ms: 1000, retry: retries_done + 1 }
    } else {
        ChunkWriteStep::StopAudio
    }
}

/// What stopping and saving a recording does next.
#[derive(Debug)]
pub enum StopStep {
    /// Merge the audio checkpoints into the final audio file.
    FinalizeAudio,
    /// Write the transcript segments to `transcripts.json`.
    WriteTranscripts,
    /// Check that `transcripts.json` exists.
    CheckTranscriptFile,
    /// Mark the metadata completed, with the recording's duration.
    UpdateMetadata,
    /// Finished: the path of the audio file (`None` when audio was not saved),
    /// or an error. When an audio file was saved the caller announces it and
    /// clears the transcript segments (see `clears_segments`); otherwise the
    /// segments are kept.
    Done(Result<Option<String>, String>),
}

/// Whether the caller clears the transcript segments after this step: only
/// when the recording ended with its audio file saved.
pub open spec fn clears_segments(r: StopStep) -> bool {
    r matches StopStep::Done(Ok(Some(_)))
}

impl StopStep {
    /// Whether the transcript segments are cleared after this step.
    pub fn clears_segments(&self) -> (b: bool)
        ensures
            b == clears_segments(*self),
    {
        match self {
            StopStep::Done(Ok(Some(_))) => true,
            _ => false,
        }
    }
}

/// Where stopping and saving stands.
#[derive(Clone, Copy, Debug, PartialEq, Eq, Structural)]
pub enum StopStage {
    Finalizing,
    WritingTranscripts,
    CheckingTranscripts,
    UpdatingMetadata,
    Finished,
}

/// Stopping a recording and saving what it produced, step by step.
pub struct StopAndSave {
    stage: StopStage,
    has_meeting_folder: bool,
    has_metadata: bool,
    audio_path: String,
}

/// A finished result as plain values.
pub open spec fn stop_result_view(r: Result<Option<String>, String>) -> Result<Option<Seq<char>>, Seq<char>> {
    match r {
        Ok(p) => Ok(crate::text::opt_view(p)),
        Err(m) => Err(m@),
    }
}

/// The step is the end, with this result.
pub open spec fn done_with(r: StopStep, res: Result<Option<Seq<char>>, Seq<char>>) -> bool {
    r matches StopStep::Done(x) && stop_result_view(x) == res
}

/// The step is a successful end with the audio file `audio`.
pub open spec fn done_ok(r: StopStep, audio: Seq<char>) -> bool {
    done_with(r, Ok(Some(audio)))
}

/// The step is a failed end with message `m`.
pub open spec fn done_err(r: StopStep, m: Seq<char>) -> bool {
    done_with(r, Err(m))
}

impl StopAndSave {
    /// The stage.
    pub closed spec fn stage_of(&self) -> StopStage {
        self.stage
    }

    /// The stage, for a caller that checks it before reporting an outcome.
    pub fn stage(&self) -> (r: StopStage)
        ensures
            r == self.stage_of(),
    {
        self.stage
    }

    /// Transcripts are only written into a meeting folder.
    #[verifier::type_invariant]
    closed spec fn transcripts_need_folder(&self) -> bool {
        (self.stage == StopStage::WritingTranscripts || self.stage == StopStage::CheckingTranscripts)
            ==> self.has_meeting_folder
    }

    /// Whether a meeting folder was set up.
    pub closed spec fn folder(&self) -> bool {
        self.has_meeting_folder
    }

    /// Whether metadata was written when the recording started.
    pub closed spec fn metadata(&self) -> bool {
        self.has_metadata
    }

    /// The path of the finalized audio file.
    pub closed spec fn audio(&self) -> Seq<char> {
        self.audio_path@
    }

    /// The step after the transcripts are settled: the metadata when there
    /// is a folder and metadata, otherwise the end.
    fn after_transcripts(&mut self) -> (r: StopStep)
        ensures
            final(self).folder() == old(self).folder(),
            final(self).metadata() == old(self).metadata(),
            final(self).audio() == old(self).audio(),
            if old(self).folder() && old(self).metadata() {
                r is UpdateMetadata && final(self).stage_of() == StopStage::UpdatingMetadata
            } else {
                final(self).stage_of() == StopStage::Finished && done_ok(r, old(self).audio())
            },
    {
        if self.has_meeting_folder && self.has_metadata {
            self.stage = StopStage::UpdatingMetadata;
            StopStep::UpdateMetadata
        } else {
            self.stage = StopStage::Finished;
            StopStep::Done(Ok(Some(self.audio_path.clone())))
        }
    }

    /// Starts stopping: without an audio saver (audio was not saved) there
    /// is nothing to finalize, since transcripts and metadata were saved as
    /// the recording went.
    pub fn begin(has_audio_saver: bool, has_meeting_folder: bool, has_metadata: bool) -> (r: (StopAndSave, StopStep))
        ensures
            r.0.folder() == has_meeting_folder,
            r.0.metadata() == has_metadata,
            has_audio_saver ==> r.1 is FinalizeAudio && r.0.stage_of() == StopStage::Finalizing,
            !has_audio_saver ==> (r.1 matches StopStep::Done(Ok(None)) && r.0.stage_of() == StopStage::Finished),
    {
        let stage = if has_audio_saver {
            StopStage::Finalizing
        } else {
            StopStage::Finished
        };
        let s = StopAndSave { stage, has_meeting_folder, has_metadata, audio_path: String::new() };
        if has_audio_saver {
            (s, StopStep::FinalizeAudio)
        } else {
            (s, StopStep::Done(Ok(None)))
        }
    }

    /// The audio file was finalized (its path), or could not be.
    pub fn audio_finalized(&mut self, outcome: Result<String, String>) -> (r: StopStep)
        requires
            old(self).stage_of() == StopStage::Finalizing,
        ensures
            final(self).folder() == old(self).folder(),
            final(self).metadata() == old(self).metadata(),
            match outcome {
                Err(e) => final(self).stage_of() == StopStage::Finished && done_err(r, "Failed to finalize audio: "@ + e@),
                Ok(path) => final(self).audio() == path@ && if old(self).folder() {
                    r is WriteTranscripts && final(self).stage_of() == StopStage::WritingTranscripts
                } else {
                    final(self).stage_of() == StopStage::Finished && done_ok(r, path@)
                },
            },
    {
        match outcome {
            Err(e) => {
                self.stage = StopStage::Finished;
                StopStep::Done(Err(String::from_str("Failed to finalize audio: ").concat(e.as_str())))
            },
            Ok(path) => {
                self.audio_path = path;
                if self.has_meeting_folder {
                    self.stage = StopStage::WritingTranscripts;
                    StopStep::WriteTranscripts
                } else {
                    self.after_transcripts()
                }
            },
        }
    }

    /// `transcripts.json` was written, or could not be.
    pub fn transcripts_written(&mut self, outcome: Result<(), String>) -> (r: StopStep)
        requires
            old(self).stage_of() == StopStage::WritingTranscripts,
        ensures
            final(self).audio() == old(self).audio(),
            final(self).folder() == old(self).folder(),
            final(self).metadata() == old(self).metadata(),
            outcome matches Err(e) ==> (final(self).stage_of() == StopStage::Finished && done_err(r, "Failed to save transcripts: "@ + e@)),
            outcome is Ok ==> (r is CheckTranscriptFile && final(self).stage_of() == StopStage::CheckingTranscripts),
    {
        proof {
            use_type_invariant(&*self);
        }
        match outcome {
            Err(e) => {
                self.stage = StopStage::Finished;
                StopStep::Done(Err(String::from_str("Failed to save transcripts: ").concat(e.as_str())))
            },
            Ok(()) => {
                self.stage = StopStage::CheckingTranscripts;
                StopStep::CheckTranscriptFile
            },
        }
    }

    /// Whether `transcripts.json` exists after writing it.
    pub fn transcript_file_checked(&mut self, exists: bool) -> (r: StopStep)
        requires
            old(self).stage_of() == StopStage::CheckingTranscripts,
        ensures
            final(self).audio() == old(self).audio(),
            !exists ==> (final(self).stage_of() == StopStage::Finished && done_err(r, "Transcript file verification failed"@)),
            exists && old(self).metadata() ==> (r is UpdateMetadata && final(self).stage_of()
                == StopStage::UpdatingMetadata),
            exists && !old(self).metadata() ==> (final(self).stage_of() == StopStage::Finished && done_ok(r, old(self).audio())),
    {
        proof {
            use_type_invariant(&*self);
        }
        if !exists {
            self.stage = StopStage::Finished;
            return StopStep::Done(Err(String::from_str("Transcript file verification failed")));
        }
        self.after_transcripts()
    }

    /// The completed metadata was written, or could not be.
    pub fn metadata_written(&mut self, outcome: Result<(), String>) -> (r: StopStep)
        requires
            old(self).stage_of() == StopStage::UpdatingMetadata,
        ensures
            final(self).stage_of() == StopStage::Finished,
            match outcome {
                Err(e) => done_err(r, "Failed to update metadata: "@ + e@),
                Ok(()) => done_ok(r, old(self).audio()),
            },
    {
        self.stage = StopStage::Finished;
        match outcome {
            Err(e) => StopStep::Done(Err(String::from_str("Failed to update metadata: ").concat(e.as_str()))),
            Ok(()) => StopStep::Done(Ok(Some(self.audio_path.clone()))),
        }
    }
}

} // verus!
