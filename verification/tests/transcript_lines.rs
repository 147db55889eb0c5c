use meetily::diarization::mapping::{choose_mapping, MappingChoice};
use meetily::diarization::stages::format_segment_text;

/// The confidence threshold below which a name is shown as uncertain.
fn low(confidence: f32) -> bool {
    confidence < 0.7
}

#[test]
fn test_format_segment_normal() {
    let formatted = format_segment_text("Alice", "Hello world", false, low(0.9));
    assert_eq!(formatted, "Alice: Hello world");
}

#[test]
fn test_format_segment_low_confidence() {
    let formatted = format_segment_text("Alice", "Hello world", false, low(0.5));
    assert_eq!(formatted, "Alice (?): Hello world");
}

#[test]
fn test_format_segment_overlapping() {
    let formatted = format_segment_text("Alice", "Hello world", true, low(0.9));
    assert_eq!(formatted, "[Alice (overlapping)]: Hello world");
}

#[test]
fn known_profile_wins_over_identification() {
    let choice = choose_mapping(
        Some(("Carol".to_string(), "p-1".to_string())),
        Some(Some("Alice".to_string())),
        true,
    );
    assert_eq!(choice, MappingChoice::KnownProfile { name: "Carol".to_string(), profile_id: "p-1".to_string() });
}

#[test]
fn confident_identification_names_the_speaker() {
    assert_eq!(
        choose_mapping(None, Some(Some("Alice".to_string())), 0.95 >= 0.7),
        MappingChoice::Identified { name: Some("Alice".to_string()) }
    );
    assert_eq!(choose_mapping(None, Some(None), true), MappingChoice::Identified { name: None });
}

#[test]
fn low_confidence_or_no_identification_keeps_the_label() {
    assert_eq!(choose_mapping(None, Some(Some("Alice".to_string())), 0.5 >= 0.7), MappingChoice::Uncertain);
    assert_eq!(choose_mapping(None, None, false), MappingChoice::Unidentified);
}
