//! Speaker identification from transcript content: the transcript and prompt
//! sent to the language model, and the clean-up of its answer.

use vstd::prelude::*;
use crate::text::{
    chars_of, opt_view, string_of, trim, trim_chars, trim_end_matches, trim_end_matches_chars,
    trim_start_matches, trim_start_matches_chars,
};

verus! {

/// The part of the identification prompt before the transcript.
pub open spec fn prompt_head() -> Seq<char> {
    "Analyze the following meeting transcript and identify speaker names from introductions.\n\nLook for patterns like:\n- \"I'm [name]\" or \"I am [name]\"\n- \"This is [name]\"\n- \"My name is [name]\"\n- \"[name] here\" or \"[name] speaking\"\n- \"Hello, [name] speaking\"\n\nTranscript:\n"@
}

/// The part of the identification prompt after the transcript.
pub open spec fn prompt_tail() -> Seq<char> {
    "\n\nFor each speaker label (Speaker 1, Speaker 2, etc.), provide:\n1. The identified name (if found, otherwise null)\n2. Confidence score (0-100, where 100 is certain)\n3. The sentence where the name was mentioned\n\nReturn ONLY valid JSON in this exact format (no markdown, no code blocks):\n{\n  \"identifications\": [\n    {\n      \"speaker_label\": \"Speaker 1\",\n      \"name\": \"John Smith\",\n      \"confidence\": 95,\n      \"source_text\": \"Hi everyone, I'm John Smith from engineering\"\n    },\n    {\n      \"speaker_label\": \"Speaker 2\",\n      \"name\": null,\n      \"confidence\": 0,\n      \"source_text\": \"\"\n    }\n  ]\n}\n\nIMPORTANT: Return ONLY the JSON object, no other text."@
}

/// The prompt asking the model to identify speakers in `transcript`.
pub open spec fn identification_prompt(transcript: Seq<char>) -> Seq<char> {
    prompt_head() + transcript + prompt_tail()
}

/// The prompt asking the model to identify speakers in `transcript`.
pub fn build_identification_prompt(transcript: &str) -> (r: String)
    ensures
        r@ == identification_prompt(transcript@),
{
    String::from_str("Analyze the following meeting transcript and identify speaker names from introductions.\n\nLook for patterns like:\n- \"I'm [name]\" or \"I am [name]\"\n- \"This is [name]\"\n- \"My name is [name]\"\n- \"[name] here\" or \"[name] speaking\"\n- \"Hello, [name] speaking\"\n\nTranscript:\n").concat(transcript).concat("\n\nFor each speaker label (Speaker 1, Speaker 2, etc.), provide:\n1. The identified name (if found, otherwise null)\n2. Confidence score (0-100, where 100 is certain)\n3. The sentence where the name was mentioned\n\nReturn ONLY valid JSON in this exact format (no markdown, no code blocks):\n{\n  \"identifications\": [\n    {\n      \"speaker_label\": \"Speaker 1\",\n      \"name\": \"John Smith\",\n      \"confidence\": 95,\n      \"source_text\": \"Hi everyone, I'm John Smith from engineering\"\n    },\n    {\n      \"speaker_label\": \"Speaker 2\",\n      \"name\": null,\n      \"confidence\": 0,\n      \"source_text\": \"\"\n    }\n  ]\n}\n\nIMPORTANT: Return ONLY the JSON object, no other text.")
}

/// The prompt for a transcript, or `None` when the transcript is blank (then
/// no speaker is identified).
pub fn identification_prompt_for(transcript: &str) -> (r: Option<String>)
    ensures
        r is None <==> trim(transcript@).len() == 0,
        r matches Some(p) ==> p@ == identification_prompt(transcript@),
{
    let t = trim_chars(&chars_of(transcript));
    if t.len() == 0 {
        return None;
    }
    Some(build_identification_prompt(transcript))
}

/// One transcript line: the speaker label (`Unknown` when there is none),
/// a colon, the text, and a newline.
pub open spec fn transcript_line(label: Option<Seq<char>>, text: Seq<char>) -> Seq<char> {
    let name = match label {
        Some(l) => l,
        None => "Unknown"@,
    };
    name + ": "@ + text + "\n"@
}

/// The transcript made of the lines of `segments` (label, text), in order.
pub open spec fn transcript_of(segments: Seq<(Option<Seq<char>>, Seq<char>)>) -> Seq<char>
    decreases segments.len(),
{
    if segments.len() == 0 {
        Seq::empty()
    } else {
        transcript_of(segments.drop_last()) + transcript_line(segments.last().0, segments.last().1)
    }
}

/// A labelled segment as plain values.
pub open spec fn segment_view(s: (Option<String>, String)) -> (Option<Seq<char>>, Seq<char>) {
    (opt_view(s.0), s.1@)
}

/// The transcript sent to the model, from each segment's speaker label (if one
/// was found) and text.
pub fn build_transcript(segments: &Vec<(Option<String>, String)>) -> (r: String)
    ensures
        r@ == transcript_of(segments@.map_values(|s: (Option<String>, String)| segment_view(s))),
{
    let ghost ss = segments@.map_values(|s: (Option<String>, String)| segment_view(s));
    let mut r = String::new();
    let mut i: usize = 0;
    while i < segments.len()
        invariant
            i <= segments.len(),
            ss == segments@.map_values(|s: (Option<String>, String)| segment_view(s)),
            r@ == transcript_of(ss.take(i as int)),
        decreases segments.len() - i,
    {
        let label: &str = match &segments[i].0 {
            Some(l) => l.as_str(),
            None => "Unknown",
        };
        r = r.concat(label).concat(": ").concat(segments[i].1.as_str()).concat("\n");
        assert(ss.take(i + 1).drop_last() == ss.take(i as int));
        i = i + 1;
    }
    assert(ss.take(segments.len() as int) == ss);
    r
}

/// The model's answer without surrounding whitespace and code fences.
pub open spec fn cleaned_response(response: Seq<char>) -> Seq<char> {
    trim(
        trim_end_matches(
            trim_start_matches(trim_start_matches(trim(response), "```json"@), "```"@),
            "```"@,
        ),
    )
}

/// Strips whitespace and Markdown code fences from the model's answer.
pub fn clean_llm_response(response: &str) -> (r: String)
    ensures
        r@ == cleaned_response(response@),
{
    let s = trim_chars(&chars_of(response));
    let s = trim_start_matches_chars(&s, &chars_of("```json"));
    let fence = chars_of("```");
    let s = trim_start_matches_chars(&s, &fence);
    let s = trim_end_matches_chars(&s, &fence);
    string_of(&trim_chars(&s))
}

/// The segment an identified speaker is first heard in: the first position of
/// its label among the speaker segments, or 0 when it has none.
pub fn source_segment_index(labels: &Vec<String>, label: &str) -> (r: usize)
    ensures
        (exists|i: int| 0 <= i < labels@.len() && labels@[i]@ == label@) ==> (r < labels@.len() && labels@[r as int]@ == label@
            && forall|j: int| 0 <= j < r ==> labels@[j]@ != label@),
        !(exists|i: int| 0 <= i < labels@.len() && labels@[i]@ == label@) ==> r == 0,
{
    let l = chars_of(label);
    let mut i: usize = 0;
    while i < labels.len()
        invariant
            i <= labels.len(),
            l@ == label@,
            forall|j: int| 0 <= j < i ==> labels@[j]@ != label@,
        decreases labels.len() - i,
    {
        let k = chars_of(labels[i].as_str());
        if crate::text::eq_chars(&k, &l) {
            return i;
        }
        i = i + 1;
    }
    0
}

} // verus!
