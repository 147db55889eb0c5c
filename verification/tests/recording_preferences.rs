use meetily::recording::preferences::{
    ensure_default_values, generate_recording_filename, get_audio_backend_info, get_available_audio_backends,
    get_current_audio_backend, get_default_recordings_folder, get_default_recordings_folder_path,
    compact_timestamp, recording_filename, recording_filename_at, recordings_folder_in, zero_padded_of, select_recording_folder, set_audio_backend,
    validate_preference_integrity, RecordingPreferences,
};

fn prefs(folder: &str, format: &str) -> RecordingPreferences {
    RecordingPreferences {
        save_folder: folder.to_string(),
        auto_save: true,
        file_format: format.to_string(),
        preferred_mic_device: None,
        preferred_system_device: None,
    }
}

#[test]
fn test_default_preferences_have_auto_save_true() {
    // Default auto_save should be true
    let prefs = RecordingPreferences::default();
    assert!(prefs.auto_save, "Default auto_save should be true");
    assert!(!prefs.save_folder.is_empty(), "Default save folder should not be empty");
    assert_eq!(prefs.file_format, "mp4", "Default file format should be mp4");
}

#[test]
fn test_ensure_default_values() {
    let prefs = ensure_default_values();
    assert!(prefs.auto_save, "Ensured default auto_save should be true");
    assert!(!prefs.save_folder.is_empty(), "Ensured default save folder should not be empty");
    assert!(!prefs.file_format.is_empty(), "Ensured default file format should not be empty");
}

#[test]
fn test_validate_preference_integrity_valid() {
    let valid_prefs = prefs("/home/user/recordings", "mp4");
    let result = validate_preference_integrity(&valid_prefs);
    assert!(result.is_ok(), "Valid preferences should pass validation");
}

#[test]
fn test_validate_preference_integrity_empty_save_folder() {
    let invalid_prefs = prefs("", "mp4");
    let result = validate_preference_integrity(&invalid_prefs);
    assert!(result.is_err(), "Empty save folder should fail validation");
    assert!(result.unwrap_err().to_string().contains("Save folder path is empty"));
}

#[test]
fn test_validate_preference_integrity_invalid_format() {
    let invalid_prefs = prefs("/home/user/recordings", "invalid_format");
    let result = validate_preference_integrity(&invalid_prefs);
    assert!(result.is_err(), "Invalid file format should fail validation");
    assert!(result.unwrap_err().to_string().contains("Unsupported file format"));
}

#[test]
fn test_validate_preference_integrity_system_directory() {
    let invalid_prefs = prefs("/", "mp4");
    let result = validate_preference_integrity(&invalid_prefs);
    assert!(result.is_err(), "System directory should fail validation");
    assert!(result.unwrap_err().to_string().contains("system directory"));
}

#[test]
fn test_get_default_recordings_folder_not_empty() {
    let folder = get_default_recordings_folder();
    assert!(!folder.is_empty(), "Default recordings folder should not be empty");
    assert!(folder.contains("meetily-recordings"), "Default folder should contain 'meetily-recordings'");
}

#[test]
fn test_validate_preference_integrity_comprehensive() {
    let valid_prefs = RecordingPreferences {
        save_folder: "/home/user/recordings".to_string(),
        auto_save: true,
        file_format: "mp4".to_string(),
        preferred_mic_device: Some("Test Mic".to_string()),
        preferred_system_device: Some("Test System".to_string()),
    };
    assert!(validate_preference_integrity(&valid_prefs).is_ok());

    let mut wav_prefs = valid_prefs.clone();
    wav_prefs.file_format = "wav".to_string();
    assert!(validate_preference_integrity(&wav_prefs).is_ok());

    let mut m4a_prefs = valid_prefs.clone();
    m4a_prefs.file_format = "m4a".to_string();
    assert!(validate_preference_integrity(&m4a_prefs).is_ok());
}

#[test]
fn test_validate_preference_integrity_edge_cases() {
    let base_prefs = prefs("/home/user/recordings", "mp4");

    let mut empty_format_prefs = base_prefs.clone();
    empty_format_prefs.file_format = "".to_string();
    let result = validate_preference_integrity(&empty_format_prefs);
    assert!(result.is_err());
    assert!(result.unwrap_err().to_string().contains("File format is empty"));

    let dangerous_paths = vec!["/", "C:\\", "/System32", "/Windows/System32", "/usr/bin", "/etc"];

    for dangerous_path in dangerous_paths {
        let mut dangerous_prefs = base_prefs.clone();
        dangerous_prefs.save_folder = dangerous_path.to_string();
        let result = validate_preference_integrity(&dangerous_prefs);
        assert!(result.is_err(), "Path {} should be rejected", dangerous_path);
    }
}

#[test]
fn test_preference_integrity_auto_save_validation() {
    let prefs_true = prefs("/home/user/recordings", "mp4");
    let mut prefs_false = prefs("/home/user/recordings", "mp4");
    prefs_false.auto_save = false;

    assert!(validate_preference_integrity(&prefs_true).is_ok());
    assert!(validate_preference_integrity(&prefs_false).is_ok());
}

#[test]
fn test_ensure_default_values_comprehensive() {
    let prefs = ensure_default_values();

    assert!(prefs.auto_save, "Default auto_save must be true");
    assert!(!prefs.save_folder.is_empty(), "Default save folder must not be empty");
    assert!(!prefs.file_format.is_empty(), "Default file format must not be empty");
    assert_eq!(prefs.file_format, "mp4", "Default file format should be mp4");

    assert!(prefs.save_folder.contains("meetily-recordings"));
}

// ----- further cases -----

#[test]
fn integrity_messages_are_exact() {
    let e = validate_preference_integrity(&prefs("/home/u", "ogg")).unwrap_err();
    assert_eq!(e.to_string(), "Unsupported file format: ogg");
    let e = validate_preference_integrity(&prefs("\\", "mp4")).unwrap_err();
    assert_eq!(e.to_string(), "Save folder path appears to be a system directory (root): \\");
    let e = validate_preference_integrity(&prefs("/etc/recordings", "wav")).unwrap_err();
    assert_eq!(e.to_string(), "Save folder path appears to be a system directory: /etc/recordings");
    let e = validate_preference_integrity(&prefs("C:\\Program Files\\rec", "m4a")).unwrap_err();
    assert_eq!(e.to_string(), "Save folder path appears to be a system directory: C:\\Program Files\\rec");
    let e = validate_preference_integrity(&prefs("", "")).unwrap_err();
    assert_eq!(e.to_string(), "Save folder path is empty");
}

#[test]
fn similar_names_are_not_system_directories() {
    assert!(validate_preference_integrity(&prefs("/etcetera", "mp4")).is_ok());
    assert!(validate_preference_integrity(&prefs("/home/user/etc", "mp4")).is_ok());
    assert!(validate_preference_integrity(&prefs("MP4", "MP4")).is_err());
}

#[test]
fn recordings_folder_joins_with_a_slash() {
    assert_eq!(recordings_folder_in(Some("/home/ana/Documents".to_string())), "/home/ana/Documents/meetily-recordings");
    assert_eq!(recordings_folder_in(Some("/data/".to_string())), "/data/meetily-recordings");
    assert_eq!(recordings_folder_in(None), "./meetily-recordings");
    assert_eq!(get_default_recordings_folder_path().unwrap(), get_default_recordings_folder());
}

#[test]
fn recording_file_names() {
    assert_eq!(recording_filename("20240102_030405", "wav"), "recording_20240102_030405.wav");
    let name = generate_recording_filename("mp4").unwrap();
    assert!(name.starts_with("recording_"));
    assert!(name.ends_with(".mp4"));
    assert_eq!(name.len(), "recording_".len() + 15 + ".mp4".len());
}

#[test]
fn compact_timestamps_are_zero_padded() {
    assert_eq!(compact_timestamp(2024, 1, 2, 3, 4, 5), "20240102_030405");
    assert_eq!(compact_timestamp(999, 12, 31, 23, 59, 59), "09991231_235959");
    assert_eq!(compact_timestamp(12345, 6, 7, 8, 9, 10), "+123450607_080910");
    assert_eq!(compact_timestamp(-1, 1, 1, 0, 0, 0), "-00010101_000000");
    assert_eq!(zero_padded_of(7, 2), "07");
    assert_eq!(zero_padded_of(123, 2), "123");
}

#[test]
fn generated_names_match_the_compact_layout() {
    let name = generate_recording_filename("wav").unwrap();
    let stamp = &name["recording_".len()..name.len() - ".wav".len()];
    assert_eq!(stamp.len(), 15);
    for (i, c) in stamp.chars().enumerate() {
        if i == 8 {
            assert_eq!(c, '_');
        } else {
            assert!(c.is_ascii_digit());
        }
    }
}

#[test]
fn audio_backends_on_this_platform() {
    assert_eq!(get_available_audio_backends().unwrap(), vec!["screencapturekit".to_string()]);
    assert_eq!(get_current_audio_backend().unwrap(), "screencapturekit");
    assert!(set_audio_backend("screencapturekit".to_string()).is_ok());
    assert_eq!(
        set_audio_backend("coreaudio".to_string()).unwrap_err(),
        "Backend coreaudio not available on this platform"
    );
    let info = get_audio_backend_info().unwrap();
    assert_eq!(info.len(), 1);
    assert_eq!(info[0].id, "screencapturekit");
    assert_eq!(info[0].name, "ScreenCaptureKit");
    assert_eq!(info[0].description, "Default system audio capture");
    assert_eq!(select_recording_folder().unwrap(), None);
}

#[test]
fn file_names_at_given_times() {
    assert_eq!(recording_filename_at(Some(0), "mp4").as_deref(), Some("recording_19700101_000000.mp4"));
    assert_eq!(recording_filename_at(Some(1431648000), "wav").as_deref(), Some("recording_20150515_000000.wav"));
    assert_eq!(recording_filename_at(Some(1431648000 + 3661), "m4a").as_deref(), Some("recording_20150515_010101.m4a"));
    assert_eq!(recording_filename_at(None, "mp4"), None);
    assert_eq!(recording_filename_at(Some(u64::MAX), "mp4"), None);
}
