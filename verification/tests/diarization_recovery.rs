use meetily::diarization::error_recovery::{ErrorRecoveryConfig, ErrorRecoveryCoordinator, RetryState, RetryStep};
use meetily::diarization::errors::DiarizationError;
use meetily::diarization::types::{PrivacyMode, ProcessingMode};
use std::time::Duration;

#[test]
fn test_is_retryable_error() {
    let config = ErrorRecoveryConfig::default();
    let coordinator = ErrorRecoveryCoordinator::new(config);

    // Retryable errors
    assert!(coordinator.is_retryable_error(&DiarizationError::NetworkError("test".to_string())));
    assert!(coordinator.is_retryable_error(&DiarizationError::ExternalApiError("test".to_string())));
    assert!(coordinator.is_retryable_error(&DiarizationError::DatabaseError("test".to_string())));

    // Non-retryable errors
    assert!(!coordinator.is_retryable_error(&DiarizationError::AudioProcessingError("test".to_string())));
    assert!(!coordinator.is_retryable_error(&DiarizationError::InvalidConfiguration("test".to_string())));
}

#[test]
fn test_suggest_fallback_mode() {
    let config = ErrorRecoveryConfig::default();
    let coordinator = ErrorRecoveryCoordinator::new(config);

    // Real-time with large chunks should suggest smaller chunks
    let mode = ProcessingMode::RealTime { chunk_size_ms: 5000 };
    let fallback = coordinator.suggest_fallback_mode(mode);
    assert!(fallback.is_some());
    match fallback.unwrap() {
        ProcessingMode::RealTime { chunk_size_ms } => assert_eq!(chunk_size_ms, 2500),
        _ => panic!("Expected RealTime mode"),
    }

    // Real-time with small chunks should suggest batch mode
    let mode = ProcessingMode::RealTime { chunk_size_ms: 1000 };
    let fallback = coordinator.suggest_fallback_mode(mode);
    assert!(fallback.is_some());
    match fallback.unwrap() {
        ProcessingMode::Batch => {}
        _ => panic!("Expected Batch mode"),
    }

    // Batch mode has no fallback
    let mode = ProcessingMode::Batch;
    let fallback = coordinator.suggest_fallback_mode(mode);
    assert!(fallback.is_none());
}

#[test]
fn test_suggest_fallback_mode_disabled() {
    let config = ErrorRecoveryConfig { enable_fallback: false, ..Default::default() };
    let coordinator = ErrorRecoveryCoordinator::new(config);

    let mode = ProcessingMode::RealTime { chunk_size_ms: 5000 };
    let fallback = coordinator.suggest_fallback_mode(mode);
    assert!(fallback.is_none());
}

#[test]
fn test_should_retry() {
    let config = ErrorRecoveryConfig { max_retries: 3, ..Default::default() };
    let coordinator = ErrorRecoveryCoordinator::new(config);

    let error = DiarizationError::NetworkError("test".to_string());

    // Should retry on first attempts
    assert!(coordinator.should_retry(&error, 0));
    assert!(coordinator.should_retry(&error, 1));
    assert!(coordinator.should_retry(&error, 2));

    // Should not retry after max attempts
    assert!(!coordinator.should_retry(&error, 3));
    assert!(!coordinator.should_retry(&error, 4));
}

#[test]
fn test_should_retry_non_retryable() {
    let config = ErrorRecoveryConfig::default();
    let coordinator = ErrorRecoveryCoordinator::new(config);

    let error = DiarizationError::InvalidConfiguration("test".to_string());

    // Should not retry non-retryable errors
    assert!(!coordinator.should_retry(&error, 0));
}

#[test]
fn test_calculate_retry_delay() {
    let config =
        ErrorRecoveryConfig { initial_retry_delay_ms: 1000, use_exponential_backoff: true, ..Default::default() };
    let coordinator = ErrorRecoveryCoordinator::new(config);

    // Exponential backoff
    assert_eq!(coordinator.calculate_retry_delay(0), Duration::from_millis(1000));
    assert_eq!(coordinator.calculate_retry_delay(1), Duration::from_millis(2000));
    assert_eq!(coordinator.calculate_retry_delay(2), Duration::from_millis(4000));
}

#[test]
fn test_calculate_retry_delay_no_backoff() {
    let config =
        ErrorRecoveryConfig { initial_retry_delay_ms: 1000, use_exponential_backoff: false, ..Default::default() };
    let coordinator = ErrorRecoveryCoordinator::new(config);

    // Fixed delay
    assert_eq!(coordinator.calculate_retry_delay(0), Duration::from_millis(1000));
    assert_eq!(coordinator.calculate_retry_delay(1), Duration::from_millis(1000));
    assert_eq!(coordinator.calculate_retry_delay(2), Duration::from_millis(1000));
}

#[test]
fn test_handle_diarization_error() {
    let config = ErrorRecoveryConfig { enable_graceful_degradation: true, ..Default::default() };
    let coordinator = ErrorRecoveryCoordinator::new(config);

    let error = DiarizationError::AudioProcessingError("test".to_string());
    let result: Option<Vec<String>> = coordinator.handle_diarization_error(&error, "test context");

    assert!(result.is_some());
    assert_eq!(result.unwrap().len(), 0);
}

#[test]
fn test_handle_diarization_error_disabled() {
    let config = ErrorRecoveryConfig { enable_graceful_degradation: false, ..Default::default() };
    let coordinator = ErrorRecoveryCoordinator::new(config);

    let error = DiarizationError::AudioProcessingError("test".to_string());
    let result: Option<Vec<String>> = coordinator.handle_diarization_error(&error, "test context");

    assert!(result.is_none());
}

#[test]
fn test_handle_identification_error() {
    let config = ErrorRecoveryConfig { enable_graceful_degradation: true, ..Default::default() };
    let coordinator = ErrorRecoveryCoordinator::new(config);

    let error = DiarizationError::IdentificationError("test".to_string());
    let result = coordinator.handle_identification_error(&error, "test context");

    assert!(result);
}

#[test]
fn test_handle_identification_error_disabled() {
    let config = ErrorRecoveryConfig { enable_graceful_degradation: false, ..Default::default() };
    let coordinator = ErrorRecoveryCoordinator::new(config);

    let error = DiarizationError::IdentificationError("test".to_string());
    let result = coordinator.handle_identification_error(&error, "test context");

    assert!(!result);
}

// ----- further cases -----

#[test]
fn retry_delay_in_milliseconds_doubles() {
    let coordinator = ErrorRecoveryCoordinator::new(ErrorRecoveryConfig { initial_retry_delay_ms: 250, ..Default::default() });
    assert_eq!(coordinator.calculate_retry_delay_ms(0), 250);
    assert_eq!(coordinator.calculate_retry_delay_ms(3), 2000);
    assert_eq!(coordinator.calculate_retry_delay_ms(10), 256000);
    assert_eq!(coordinator.calculate_retry_delay(3), Duration::from_millis(2000));
}

#[test]
fn retry_loop_waits_then_gives_up() {
    let coordinator = ErrorRecoveryCoordinator::new(ErrorRecoveryConfig::default());
    let s0 = coordinator.retry_start();
    assert_eq!(s0, RetryState { attempts: 0, delay_ms: 1000 });
    let s1 = match coordinator.retry_after_failure(s0) {
        RetryStep::Wait { wait_ms, next } => {
            assert_eq!(wait_ms, 1000);
            next
        }
        other => panic!("expected a wait, got {:?}", other),
    };
    let s2 = match coordinator.retry_after_failure(s1) {
        RetryStep::Wait { wait_ms, next } => {
            assert_eq!(wait_ms, 2000);
            next
        }
        other => panic!("expected a wait, got {:?}", other),
    };
    let s3 = match coordinator.retry_after_failure(s2) {
        RetryStep::Wait { wait_ms, next } => {
            assert_eq!(wait_ms, 4000);
            next
        }
        other => panic!("expected a wait, got {:?}", other),
    };
    assert_eq!(coordinator.retry_after_failure(s3), RetryStep::GiveUp { attempts: 4 });
}

#[test]
fn retry_without_backoff_keeps_delay_and_zero_retries_tries_once() {
    let fixed = ErrorRecoveryCoordinator::new(ErrorRecoveryConfig {
        use_exponential_backoff: false,
        max_retries: 5,
        ..Default::default()
    });
    let step = fixed.retry_after_failure(RetryState { attempts: 1, delay_ms: 700 });
    assert_eq!(step, RetryStep::Wait { wait_ms: 700, next: RetryState { attempts: 2, delay_ms: 700 } });
    let none = ErrorRecoveryCoordinator::new(ErrorRecoveryConfig { max_retries: 0, ..Default::default() });
    assert_eq!(none.retry_after_failure(none.retry_start()), RetryStep::GiveUp { attempts: 1 });
}

#[test]
fn resource_errors_are_retried_but_consent_is_not() {
    let coordinator = ErrorRecoveryCoordinator::new(ErrorRecoveryConfig::default());
    assert!(coordinator.is_retryable_error(&DiarizationError::ResourceError("busy".to_string())));
    assert!(!coordinator.is_retryable_error(&DiarizationError::ConsentRequired("no".to_string())));
    assert!(!coordinator.should_retry(&DiarizationError::Other("x".to_string()), 0));
}

#[test]
fn user_messages_hide_details() {
    let coordinator = ErrorRecoveryCoordinator::new(ErrorRecoveryConfig::default());
    assert_eq!(
        coordinator.user_message(&DiarizationError::NetworkError("dns".to_string())),
        "Network connection required for speaker detection"
    );
    assert_eq!(
        coordinator.user_message(&DiarizationError::ExportError("x".to_string())),
        "Speaker detection encountered an error"
    );
}

#[test]
fn error_messages_carry_their_detail() {
    assert_eq!(DiarizationError::NetworkError("test".to_string()).to_string(), "Network error: test");
    assert_eq!(DiarizationError::ConsentRequired("ask".to_string()).to_string(), "Consent required: ask");
    let io = DiarizationError::IoError(std::io::Error::new(std::io::ErrorKind::Other, "disk gone"));
    assert_eq!(io.to_string(), "IO error: disk gone");
}

#[test]
fn mode_defaults() {
    assert_eq!(ProcessingMode::default(), ProcessingMode::Batch);
    assert_eq!(PrivacyMode::default(), PrivacyMode::PreferExternal);
}

#[test]
fn fallback_of_small_realtime_chunk_halves_only_above_one_second() {
    let coordinator = ErrorRecoveryCoordinator::new(ErrorRecoveryConfig::default());
    assert_eq!(
        coordinator.suggest_fallback_mode(ProcessingMode::RealTime { chunk_size_ms: 1001 }),
        Some(ProcessingMode::RealTime { chunk_size_ms: 500 })
    );
}

#[test]
fn fallback_chain_runs_out_within_twenty_five_steps() {
    let coordinator = ErrorRecoveryCoordinator::new(ErrorRecoveryConfig::default());
    let mut mode = Some(ProcessingMode::RealTime { chunk_size_ms: u32::MAX });
    let mut steps = 0;
    while let Some(m) = mode {
        mode = coordinator.suggest_fallback_mode(m);
        steps += 1;
    }
    assert!(steps <= 25);
    assert_eq!(steps, 25);
}

#[test]
fn retry_delays_double_or_stay() {
    let backoff = ErrorRecoveryCoordinator::new(ErrorRecoveryConfig::default());
    assert_eq!(backoff.calculate_retry_delay_ms(4), 2 * backoff.calculate_retry_delay_ms(3));
    let fixed = ErrorRecoveryCoordinator::new(ErrorRecoveryConfig { use_exponential_backoff: false, ..Default::default() });
    assert_eq!(fixed.calculate_retry_delay_ms(4), fixed.calculate_retry_delay_ms(3));
}

#[test]
fn io_and_json_errors_convert() {
    let io: DiarizationError = std::io::Error::new(std::io::ErrorKind::Other, "disk gone").into();
    assert!(matches!(io, DiarizationError::IoError(_)));
    let json_err = serde_json::from_str::<u32>("not json").unwrap_err();
    let json: DiarizationError = json_err.into();
    assert!(matches!(json, DiarizationError::SerializationError(_)));
}
