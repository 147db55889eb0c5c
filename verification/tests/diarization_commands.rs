use meetily::diarization::mapping::{find_first, speaker_labels_in_order};
use meetily::diarization::commands::{
    enroll_speaker, parse_privacy_mode, parse_processing_mode, speaker_name_for, validate_mode_names,
    voice_profile_deletion_outcome, voice_profile_dto_from_row, EnrollSpeakerRequest,
};
use meetily::diarization::errors::DiarizationError;
use meetily::diarization::identification::{
    build_identification_prompt, build_transcript, clean_llm_response, identification_prompt_for,
    source_segment_index,
};
use meetily::diarization::profiles::{check_profile_consent, hash_embedding_bytes, to_lower_hex, ProfileManagerConfig};
use meetily::diarization::types::{PrivacyMode, ProcessingMode};

#[test]
fn test_build_identification_prompt() {
    let transcript = "Speaker 1: Hello, I'm John\nSpeaker 2: Hi, this is Sarah";
    let prompt = build_identification_prompt(transcript);

    assert!(prompt.contains("Speaker 1: Hello, I'm John"));
    assert!(prompt.contains("Speaker 2: Hi, this is Sarah"));
    assert!(prompt.contains("I'm [name]"));
    assert!(prompt.contains("JSON"));
}

#[test]
fn test_empty_transcript() {
    let transcript = build_transcript(&vec![]);
    assert!(transcript.trim().is_empty());
}

#[test]
fn transcript_lines_name_their_speaker() {
    let t = build_transcript(&vec![
        (Some("Speaker 1".to_string()), "Hello everyone".to_string()),
        (Some("Speaker 2".to_string()), "I'm Alice from engineering".to_string()),
        (None, "(inaudible)".to_string()),
    ]);
    assert_eq!(t, "Speaker 1: Hello everyone\nSpeaker 2: I'm Alice from engineering\nUnknown: (inaudible)\n");
}

#[test]
fn blank_transcript_gets_no_prompt() {
    assert_eq!(identification_prompt_for("  \n "), None);
    let p = identification_prompt_for("Speaker 1: hi").unwrap();
    assert!(p.starts_with("Analyze the following meeting transcript"));
    assert!(p.contains("Transcript:\nSpeaker 1: hi\n\nFor each speaker label"));
    assert!(p.ends_with("IMPORTANT: Return ONLY the JSON object, no other text."));
}

#[test]
fn llm_answer_fences_are_removed() {
    let raw = "```json\n{\n  \"identifications\": []\n}\n```";
    assert_eq!(clean_llm_response(raw), "{\n  \"identifications\": []\n}");
    assert_eq!(clean_llm_response("  ```\n{}\n```  "), "{}");
    assert_eq!(clean_llm_response("{\"a\": 1}"), "{\"a\": 1}");
}

#[test]
fn source_segment_is_first_with_label() {
    let labels = vec!["Speaker 2".to_string(), "Speaker 1".to_string(), "Speaker 2".to_string()];
    assert_eq!(source_segment_index(&labels, "Speaker 2"), 0);
    assert_eq!(source_segment_index(&labels, "Speaker 1"), 1);
    assert_eq!(source_segment_index(&labels, "Speaker 9"), 0);
}

#[test]
fn mode_names_are_parsed_ignoring_case() {
    assert_eq!(parse_processing_mode("Batch"), ProcessingMode::Batch);
    assert_eq!(parse_processing_mode("REALTIME"), ProcessingMode::RealTime { chunk_size_ms: 5000 });
    assert_eq!(parse_processing_mode("Adaptive"), ProcessingMode::Batch);
    assert_eq!(parse_privacy_mode("LocalOnly"), PrivacyMode::LocalOnly);
    assert_eq!(parse_privacy_mode("externalonly"), PrivacyMode::ExternalOnly);
    assert_eq!(parse_privacy_mode("PreferExternal"), PrivacyMode::PreferExternal);
    assert_eq!(parse_privacy_mode("cloud"), PrivacyMode::PreferExternal);
}

#[test]
fn configuration_mode_names_must_match_exactly() {
    assert!(validate_mode_names("RealTime", "ExternalOnly").is_ok());
    assert_eq!(validate_mode_names("realtime", "LocalOnly").unwrap_err(), "Invalid processing mode: realtime");
    assert_eq!(validate_mode_names("Batch", "Cloud").unwrap_err(), "Invalid privacy mode: Cloud");
}

#[test]
fn enrollment_needs_consent_and_samples() {
    let mut req = EnrollSpeakerRequest { name: "Ana".to_string(), audio_samples: vec![], consent_given: false };
    assert_eq!(enroll_speaker(&req).unwrap_err(), "User consent is required for voice profile enrollment");
    req.consent_given = true;
    assert_eq!(enroll_speaker(&req).unwrap_err(), "At least one audio sample is required");
    req.audio_samples.push("a.wav".to_string());
    assert_eq!(enroll_speaker(&req).unwrap_err(), "Voice profile enrollment not yet implemented");
}

#[test]
fn deleting_nothing_is_not_found() {
    assert_eq!(voice_profile_deletion_outcome(0).unwrap_err(), "Voice profile not found");
    assert!(voice_profile_deletion_outcome(2).is_ok());
}

#[test]
fn later_mappings_override_earlier_ones() {
    let mappings = vec![
        ("Speaker 1".to_string(), Some("Ann".to_string())),
        ("Speaker 2".to_string(), None),
        ("Speaker 1".to_string(), Some("Anna".to_string())),
    ];
    assert_eq!(speaker_name_for(&mappings, "Speaker 1"), Some("Anna".to_string()));
    assert_eq!(speaker_name_for(&mappings, "Speaker 2"), None);
    assert_eq!(speaker_name_for(&mappings, "Speaker 3"), None);
}

#[test]
fn profile_rows_become_dtos() {
    let dto = voice_profile_dto_from_row(
        "id1".to_string(),
        "Ana".to_string(),
        "ab".to_string(),
        "2024-01-01".to_string(),
        "2024-02-01".to_string(),
        7,
    );
    assert_eq!(dto.meeting_count, 7);
    assert_eq!(dto.name, "Ana");
}

#[test]
fn test_create_profile_without_consent() {
    let config = ProfileManagerConfig { auto_delete_after_days: Some(90), require_consent: true };
    match check_profile_consent(&config, false) {
        Err(DiarizationError::ConsentRequired(m)) => assert_eq!(m, "User consent required to create voice profile"),
        other => panic!("expected a consent error, got {:?}", other),
    }
    assert!(check_profile_consent(&config, true).is_ok());
    let lax = ProfileManagerConfig { require_consent: false, ..ProfileManagerConfig::default() };
    assert!(check_profile_consent(&lax, false).is_ok());
    assert_eq!(ProfileManagerConfig::default().auto_delete_after_days, Some(90));
}

fn embedding_bytes(embedding: &[f32]) -> Vec<u8> {
    embedding.iter().flat_map(|f| f.to_le_bytes()).collect()
}

#[test]
fn test_hash_embedding() {
    let embedding = vec![0.1f32, 0.2, 0.3, 0.4, 0.5];
    let hash1 = hash_embedding_bytes(&embedding_bytes(&embedding));
    let hash2 = hash_embedding_bytes(&embedding_bytes(&embedding));

    // Same embedding should produce same hash
    assert_eq!(hash1, hash2);

    // Hash should be 64 characters (SHA-256 in hex)
    assert_eq!(hash1.len(), 64);

    // Different embedding should produce different hash
    let different_embedding = vec![0.5f32, 0.4, 0.3, 0.2, 0.1];
    let hash3 = hash_embedding_bytes(&embedding_bytes(&different_embedding));
    assert_ne!(hash1, hash3);
}

#[test]
fn sha256_of_known_input() {
    assert_eq!(
        hash_embedding_bytes(b"abc"),
        "ba7816bf8f01cfea414140de5dae2223b00361a396177a9cb410ff61f20015ad"
    );
    assert_eq!(to_lower_hex(&vec![0x00, 0x0f, 0xa0, 0xff]), "000fa0ff");
}

#[test]
fn labels_are_mapped_once_in_order() {
    let labels = vec![
        "Speaker 2".to_string(),
        "Speaker 1".to_string(),
        "Speaker 2".to_string(),
        "Speaker 3".to_string(),
        "Speaker 1".to_string(),
    ];
    assert_eq!(
        speaker_labels_in_order(&labels),
        vec!["Speaker 2".to_string(), "Speaker 1".to_string(), "Speaker 3".to_string()]
    );
    assert_eq!(find_first(&labels, "Speaker 1"), Some(1));
    assert_eq!(find_first(&labels, "Speaker 9"), None);
}
