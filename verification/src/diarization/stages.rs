//! The stages that turn diarization output into a finished transcript:
//! aligning speaker segments with transcript segments, adding speaker names,
//! and exporting. Their timing arithmetic works on floating-point seconds and
//! lives outside this crate; here are the stages themselves, the line format
//! of an enhanced transcript, and the export formats.

use vstd::prelude::*;

verus! {

/// Aligns transcript segments with speaker segments.
#[derive(Clone, Copy, Debug)]
pub struct SynchronizationLayer;

/// Adds speaker information to transcripts.
#[derive(Clone, Copy, Debug)]
pub struct TranscriptEnhancer;

impl TranscriptEnhancer {
    /// A transcript enhancer.
    pub fn new() -> (r: Self)
        ensures
            r == TranscriptEnhancer,
    {
        TranscriptEnhancer
    }
}

impl Default for TranscriptEnhancer {
    /// A transcript enhancer.
    fn default() -> (r: Self)
        ensures
            r == TranscriptEnhancer,
    {
        TranscriptEnhancer::new()
    }
}

/// Formats a transcript can be exported in.
#[derive(Clone, Copy, Debug, PartialEq, Eq, Structural)]
pub enum ExportFormat {
    Text,
    Markdown,
    Json,
}

/// One line of an enhanced transcript: the speaker's name and the text,
/// the name in brackets and marked when speakers overlap, and marked with
/// `(?)` when the name is uncertain (its confidence below 0.7, which the
/// caller decides).
pub open spec fn segment_line(speaker_name: Seq<char>, text: Seq<char>, is_overlapping: bool, low_confidence: bool) -> Seq<char> {
    if is_overlapping {
        "["@ + speaker_name + " (overlapping)]: "@ + text
    } else if low_confidence {
        speaker_name + " (?): "@ + text
    } else {
        speaker_name + ": "@ + text
    }
}

/// Formats one segment of an enhanced transcript (see `segment_line`).
pub fn format_segment_text(speaker_name: &str, text: &str, is_overlapping: bool, low_confidence: bool) -> (r: String)
    ensures
        r@ == segment_line(speaker_name@, text@, is_overlapping, low_confidence),
{
    if is_overlapping {
        String::from_str("[").concat(speaker_name).concat(" (overlapping)]: ").concat(text)
    } else if low_confidence {
        String::from_str(speaker_name).concat(" (?): ").concat(text)
    } else {
        String::from_str(speaker_name).concat(": ").concat(text)
    }
}

} // verus!
