use meetily::diarization::errors::DiarizationError;
use meetily::diarization::router::{LlmApiKeys, ModelChoice, ModelRouter, RouterConfig, RoutingStep};
use meetily::diarization::types::PrivacyMode;

fn no_keys() -> LlmApiKeys {
    LlmApiKeys { gemini: None, openai: None, anthropic: None, huggingface: None, hf_token: None }
}

fn chosen(step: RoutingStep) -> ModelChoice {
    match step {
        RoutingStep::Chosen(c) => c,
        other => panic!("expected a choice, got {:?}", other),
    }
}

#[test]
fn router_test_local_only_mode_always_returns_local() {
    let config = RouterConfig { privacy_mode: PrivacyMode::LocalOnly, ..Default::default() };
    let mut router = ModelRouter::new(config);

    match chosen(router.diarization_step(0, Some("hf".to_string()))) {
        ModelChoice::Local { model_path } => assert_eq!(model_path, "models/pyannote/speaker-diarization"),
        ModelChoice::External { .. } => panic!("LocalOnly mode should never return external model"),
    }
    let keys = LlmApiKeys { openai: Some("sk".to_string()), ..no_keys() };
    match chosen(router.llm_step(0, &keys)) {
        ModelChoice::Local { model_path } => assert_eq!(model_path, "models/llm/local"),
        ModelChoice::External { .. } => panic!("LocalOnly mode should never return external model"),
    }
}

#[test]
fn router_test_prefer_external_mode_tries_external_first() {
    let config = RouterConfig { privacy_mode: PrivacyMode::PreferExternal, ..Default::default() };
    let mut offline = ModelRouter::new(config);
    assert!(matches!(offline.diarization_step(5, None), RoutingStep::CheckConnectivity));
    offline.record_connectivity(false, 5);
    assert!(matches!(chosen(offline.diarization_step(5, None)), ModelChoice::Local { .. }));

    let config = RouterConfig { privacy_mode: PrivacyMode::PreferExternal, ..Default::default() };
    let mut online = ModelRouter::new(config);
    online.record_connectivity(true, 0);
    match chosen(online.diarization_step(1, Some("hf_key".to_string()))) {
        ModelChoice::External { endpoint, api_key } => {
            assert_eq!(endpoint, "https://api-inference.huggingface.co/models/pyannote/speaker-diarization-3.1");
            assert_eq!(api_key, Some("hf_key".to_string()));
        }
        ModelChoice::Local { .. } => panic!("connected PreferExternal should use the external model"),
    }
    // Without any key, identification falls back to the local model.
    assert!(matches!(chosen(online.llm_step(1, &no_keys())), ModelChoice::Local { .. }));
}

#[test]
fn router_test_cache_works() {
    let config =
        RouterConfig { privacy_mode: PrivacyMode::LocalOnly, cache_duration_seconds: 60, ..Default::default() };
    let mut router = ModelRouter::new(config);

    let choice1 = chosen(router.diarization_step(10, None));
    let choice2 = chosen(router.diarization_step(69, None));
    match (&choice1, &choice2) {
        (ModelChoice::Local { model_path: path1 }, ModelChoice::Local { model_path: path2 }) => {
            assert_eq!(path1, path2, "Cached choice should match first choice");
        }
        _ => panic!("Both choices should be local models"),
    }

    let (has_diarization, has_llm, _connectivity) = router.get_cache_status();
    assert!(has_diarization, "Diarization choice should be cached");
    assert!(!has_llm, "LLM choice should not be cached yet");
}

#[test]
fn router_test_cache_clear() {
    let config = RouterConfig { privacy_mode: PrivacyMode::LocalOnly, ..Default::default() };
    let mut router = ModelRouter::new(config);

    let _ = chosen(router.diarization_step(0, None));
    let (has_diarization_before, _, _) = router.get_cache_status();
    assert!(has_diarization_before, "Cache should be populated");

    router.clear_cache(1);
    assert_eq!(router.get_cache_status(), (false, false, None));
}

#[test]
fn router_test_external_only_mode_requires_external() {
    let config = RouterConfig { privacy_mode: PrivacyMode::ExternalOnly, ..Default::default() };
    let mut router = ModelRouter::new(config);

    match router.diarization_step(0, None) {
        RoutingStep::Chosen(ModelChoice::External { api_key, .. }) => assert_eq!(api_key, None),
        other => panic!("ExternalOnly mode should never return local model: {:?}", other),
    }
    match router.llm_step(0, &no_keys()) {
        RoutingStep::Failed(DiarizationError::ExternalApiError(m)) => assert_eq!(
            m,
            "No external LLM API key configured. Set GEMINI_API_KEY, OPENAI_API_KEY, ANTHROPIC_API_KEY, or HUGGINGFACE_API_KEY"
        ),
        other => panic!("expected a failure, got {:?}", other),
    }
    // A failure caches nothing.
    assert_eq!(router.get_cache_status(), (true, false, None));
}

#[test]
fn router_test_connectivity_check_caching() {
    let config = RouterConfig { privacy_mode: PrivacyMode::PreferExternal, ..Default::default() };
    let mut router = ModelRouter::new(config);
    assert!(matches!(router.llm_step(0, &no_keys()), RoutingStep::CheckConnectivity));
    router.record_connectivity(true, 0);
    let (_, _, connectivity1) = router.get_cache_status();
    // Still known 29 seconds later, no new check needed.
    let _ = chosen(router.diarization_step(29, None));
    let (_, _, connectivity2) = router.get_cache_status();
    assert_eq!(connectivity1, connectivity2, "Connectivity status should be cached");
    assert_eq!(connectivity2, Some(true));
}

#[test]
fn llm_api_key_priority() {
    let config = RouterConfig { privacy_mode: PrivacyMode::ExternalOnly, ..Default::default() };
    let all = LlmApiKeys {
        gemini: Some("g".to_string()),
        openai: Some("o".to_string()),
        anthropic: Some("a".to_string()),
        huggingface: None,
        hf_token: Some("t".to_string()),
    };
    let mut router = ModelRouter::new(config);
    match chosen(router.llm_step(0, &all)) {
        ModelChoice::External { endpoint, api_key } => {
            assert!(endpoint.contains("generativelanguage.googleapis.com"));
            assert_eq!(api_key, Some("g".to_string()));
        }
        _ => panic!("expected an external model"),
    }
    let rest = [
        (LlmApiKeys { gemini: None, ..clone_keys(&all) }, "https://api.openai.com/v1/chat/completions", "o"),
        (LlmApiKeys { gemini: None, openai: None, ..clone_keys(&all) }, "https://api.anthropic.com/v1/messages", "a"),
        (
            LlmApiKeys { gemini: None, openai: None, anthropic: None, ..clone_keys(&all) },
            "https://api-inference.huggingface.co/models/meta-llama/Llama-2-7b-chat-hf",
            "t",
        ),
    ];
    for (keys, expected_endpoint, expected_key) in rest.iter() {
        let mut fresh = ModelRouter::new(RouterConfig { privacy_mode: PrivacyMode::ExternalOnly, ..Default::default() });
        match chosen(fresh.llm_step(0, keys)) {
            ModelChoice::External { endpoint, api_key } => {
                assert_eq!(endpoint, *expected_endpoint);
                assert_eq!(api_key, Some(expected_key.to_string()));
            }
            _ => panic!("expected an external model"),
        }
    }
}

fn clone_keys(k: &LlmApiKeys) -> LlmApiKeys {
    LlmApiKeys {
        gemini: k.gemini.clone(),
        openai: k.openai.clone(),
        anthropic: k.anthropic.clone(),
        huggingface: k.huggingface.clone(),
        hf_token: k.hf_token.clone(),
    }
}

#[test]
fn expired_choice_is_decided_again() {
    let config =
        RouterConfig { privacy_mode: PrivacyMode::PreferExternal, cache_duration_seconds: 10, ..Default::default() };
    let mut router = ModelRouter::new(config);
    router.record_connectivity(false, 0);
    assert!(matches!(chosen(router.diarization_step(0, None)), ModelChoice::Local { .. }));
    // After ten seconds the choice has expired; connectivity is still known.
    router.record_connectivity(true, 10);
    assert!(matches!(chosen(router.diarization_step(10, None)), ModelChoice::External { .. }));
    // After thirty seconds connectivity must be checked again.
    assert!(matches!(router.llm_step(41, &no_keys()), RoutingStep::CheckConnectivity));
}

#[test]
fn router_config_defaults() {
    let c = RouterConfig::default();
    assert_eq!(c.privacy_mode, PrivacyMode::PreferExternal);
    assert_eq!(c.external_api_timeout_ms, 5000);
    assert_eq!(c.cache_duration_seconds, 300);
    assert_eq!(c.local_llm_path, "models/llm/local");
}
