//! The checks and conversions behind the diarization commands: parsing the
//! mode names the front end sends, validating a configuration, and the
//! answers to enrollment, deletion and speaker-name lookups.

use vstd::prelude::*;
use crate::diarization::types::{ProcessingMode, PrivacyMode};
use crate::text::{chars_of, eq_str, lowercase_of, lowercase};

verus! {

/// Request to rename a speaker of a meeting.
#[derive(Clone, Debug)]
pub struct UpdateSpeakerNameRequest {
    pub meeting_id: String,
    pub speaker_label: String,
    pub new_name: String,
}

/// Request to merge one speaker label into another.
#[derive(Clone, Debug)]
pub struct MergeSpeakersRequest {
    pub meeting_id: String,
    pub source_label: String,
    pub target_label: String,
}

/// Request to enroll a speaker from audio samples.
#[derive(Clone, Debug)]
pub struct EnrollSpeakerRequest {
    pub name: String,
    /// Paths to audio samples.
    pub audio_samples: Vec<String>,
    pub consent_given: bool,
}

/// A stored voice profile, as sent to the front end.
#[derive(Clone, Debug)]
pub struct VoiceProfileDto {
    pub id: String,
    pub name: String,
    pub embedding_hash: String,
    pub created_at: String,
    pub last_seen: String,
    pub meeting_count: u32,
}

/// The processing mode named by a lower-case name (batch by default).
pub open spec fn processing_mode_named(lower: Seq<char>) -> ProcessingMode {
    if lower == "realtime"@ {
        ProcessingMode::RealTime { chunk_size_ms: 5000 }
    } else {
        ProcessingMode::Batch
    }
}

/// The privacy mode named by a lower-case name (prefer external by default).
pub open spec fn privacy_mode_named(lower: Seq<char>) -> PrivacyMode {
    if lower == "localonly"@ {
        PrivacyMode::LocalOnly
    } else if lower == "externalonly"@ {
        PrivacyMode::ExternalOnly
    } else {
        PrivacyMode::PreferExternal
    }
}

/// The processing mode named by an already lower-cased name: `realtime`
/// gives five-second real-time chunks, anything else batch mode.
pub fn processing_mode_from_lowercase(lower: &str) -> (r: ProcessingMode)
    ensures
        r == processing_mode_named(lower@),
{
    let l = chars_of(lower);
    proof {
        reveal_strlit("batch");
        reveal_strlit("realtime");
        assert("batch"@ != "realtime"@) by {
            assert("batch"@.len() == 5);
            assert("realtime"@.len() == 8);
        }
    }
    if eq_str(&l, "batch") {
        ProcessingMode::Batch
    } else if eq_str(&l, "realtime") {
        ProcessingMode::RealTime { chunk_size_ms: 5000 }
    } else {
        ProcessingMode::Batch
    }
}

/// The processing mode named by `mode`, ignoring case.
pub fn parse_processing_mode(mode: &str) -> (r: ProcessingMode)
    ensures
        r == processing_mode_named(lowercase(mode@)),
{
    let lower = crate::text::string_of(&lowercase_of(&chars_of(mode)));
    processing_mode_from_lowercase(lower.as_str())
}

/// The privacy mode named by an already lower-cased name: `localonly`,
/// `preferexternal`, `externalonly`; anything else prefers external models.
pub fn privacy_mode_from_lowercase(lower: &str) -> (r: PrivacyMode)
    ensures
        r == privacy_mode_named(lower@),
{
    let l = chars_of(lower);
    proof {
        reveal_strlit("localonly");
        reveal_strlit("preferexternal");
        reveal_strlit("externalonly");
        assert("preferexternal"@ != "localonly"@ && "preferexternal"@ != "externalonly"@ && "localonly"@
            != "externalonly"@) by {
            assert("localonly"@.len() == 9);
            assert("externalonly"@.len() == 12);
            assert("preferexternal"@.len() == 14);
        }
    }
    if eq_str(&l, "localonly") {
        PrivacyMode::LocalOnly
    } else if eq_str(&l, "preferexternal") {
        PrivacyMode::PreferExternal
    } else if eq_str(&l, "externalonly") {
        PrivacyMode::ExternalOnly
    } else {
        PrivacyMode::PreferExternal
    }
}

/// The privacy mode named by `mode`, ignoring case.
pub fn parse_privacy_mode(mode: &str) -> (r: PrivacyMode)
    ensures
        r == privacy_mode_named(lowercase(mode@)),
{
    let lower = crate::text::string_of(&lowercase_of(&chars_of(mode)));
    privacy_mode_from_lowercase(lower.as_str())
}

/// Processing mode names a configuration may use (exactly, with this case).
pub open spec fn valid_processing_mode_name(m: Seq<char>) -> bool {
    m == "Batch"@ || m == "RealTime"@
}

/// Privacy mode names a configuration may use (exactly, with this case).
pub open spec fn valid_privacy_mode_name(m: Seq<char>) -> bool {
    m == "LocalOnly"@ || m == "PreferExternal"@ || m == "ExternalOnly"@
}

/// Checks the mode names of a diarization configuration.
pub fn validate_mode_names(processing_mode: &str, privacy_mode: &str) -> (r: Result<(), String>)
    ensures
        r is Ok <==> valid_processing_mode_name(processing_mode@) && valid_privacy_mode_name(privacy_mode@),
        r matches Err(m) ==> if !valid_processing_mode_name(processing_mode@) {
            m@ == "Invalid processing mode: "@ + processing_mode@
        } else {
            m@ == "Invalid privacy mode: "@ + privacy_mode@
        },
{
    let p = chars_of(processing_mode);
    if !(eq_str(&p, "Batch") || eq_str(&p, "RealTime")) {
        return Err(String::from_str("Invalid processing mode: ").concat(processing_mode));
    }
    let q = chars_of(privacy_mode);
    if !(eq_str(&q, "LocalOnly") || eq_str(&q, "PreferExternal") || eq_str(&q, "ExternalOnly")) {
        return Err(String::from_str("Invalid privacy mode: ").concat(privacy_mode));
    }
    Ok(())
}

/// The answer to an enrollment request: consent and at least one sample are
/// required, and enrollment itself is not available yet, so the answer is
/// always an error.
pub fn enroll_speaker(request: &EnrollSpeakerRequest) -> (r: Result<VoiceProfileDto, String>)
    ensures
        r matches Err(m) && m@ == if !request.consent_given {
            "User consent is required for voice profile enrollment"@
        } else if request.audio_samples@.len() == 0 {
            "At least one audio sample is required"@
        } else {
            "Voice profile enrollment not yet implemented"@
        },
{
    if !request.consent_given {
        return Err(String::from_str("User consent is required for voice profile enrollment"));
    }
    if request.audio_samples.len() == 0 {
        return Err(String::from_str("At least one audio sample is required"));
    }
    Err(String::from_str("Voice profile enrollment not yet implemented"))
}

/// The answer to deleting a voice profile, given how many rows were deleted.
pub fn voice_profile_deletion_outcome(rows_affected: u64) -> (r: Result<(), String>)
    ensures
        r is Ok <==> rows_affected > 0,
        r matches Err(m) ==> m@ == "Voice profile not found"@,
{
    if rows_affected == 0 {
        return Err(String::from_str("Voice profile not found"));
    }
    Ok(())
}

/// The name a list of (label, name) mappings gives `label`: the last mapping
/// of the label wins, as when they are collected into a map.
pub open spec fn mapped_name(mappings: Seq<(Seq<char>, Option<Seq<char>>)>, label: Seq<char>) -> Option<Seq<char>>
    decreases mappings.len(),
{
    if mappings.len() == 0 {
        None
    } else if mappings.last().0 == label {
        mappings.last().1
    } else {
        mapped_name(mappings.drop_last(), label)
    }
}

/// A mapping as plain values.
pub open spec fn mapping_view(m: (String, Option<String>)) -> (Seq<char>, Option<Seq<char>>) {
    (m.0@, crate::text::opt_view(m.1))
}

/// The speaker name that the mappings give a label, if any.
pub fn speaker_name_for(mappings: &Vec<(String, Option<String>)>, label: &str) -> (r: Option<String>)
    ensures
        crate::text::opt_view(r) == mapped_name(mappings@.map_values(|m: (String, Option<String>)| mapping_view(m)), label@),
{
    let ghost ms = mappings@.map_values(|m: (String, Option<String>)| mapping_view(m));
    let l = chars_of(label);
    let mut i: usize = mappings.len();
    assert(ms.take(i as int) == ms);
    while i > 0
        invariant
            i <= mappings.len(),
            ms == mappings@.map_values(|m: (String, Option<String>)| mapping_view(m)),
            l@ == label@,
            mapped_name(ms, label@) == mapped_name(ms.take(i as int), label@),
        decreases i,
    {
        let j = i - 1;
        let k = chars_of(mappings[j].0.as_str());
        assert(ms.take(i as int).drop_last() == ms.take(j as int));
        assert(ms.take(i as int).last() == mapping_view(mappings@[j as int]));
        if crate::text::eq_chars(&k, &l) {
            return match &mappings[j].1 {
                Some(n) => Some(n.clone()),
                None => None,
            };
        }
        i = j;
    }
    None
}

/// A voice profile row (id, name, hash, created, last seen, meeting count)
/// as sent to the front end; the count is read as unsigned.
pub fn voice_profile_dto_from_row(
    id: String,
    name: String,
    embedding_hash: String,
    created_at: String,
    last_seen: String,
    meeting_count: i32,
) -> (r: VoiceProfileDto)
    ensures
        r.id == id,
        r.name == name,
        r.embedding_hash == embedding_hash,
        r.created_at == created_at,
        r.last_seen == last_seen,
        r.meeting_count == meeting_count as u32,
{
    VoiceProfileDto {
        id,
        name,
        embedding_hash,
        created_at,
        last_seen,
        meeting_count: meeting_count as u32,
    }
}

} // verus!
