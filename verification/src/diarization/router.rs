//! Model routing: whether diarization and speaker identification use an
//! external (cloud) model or a local one.
//!
//! - `LocalOnly` never uses an external model;
//! - `PreferExternal` uses an external model when the internet is reachable
//!   (and, for identification, an API key is configured), otherwise a local one;
//! - `ExternalOnly` never uses a local model, and fails when no external one
//!   can be had.
//!
//! Decisions are cached for `cache_duration_seconds` and connectivity for
//! thirty seconds. The router is driven step by step: a step either gives its
//! decision or asks for a connectivity check, whose outcome is then recorded.
//! Times are whole seconds on a clock that does not go backwards.

use vstd::prelude::*;
use crate::diarization::errors::DiarizationError;
use crate::diarization::types::PrivacyMode;
use crate::text::opt_view;

verus! {

/// The model a router chose.
#[derive(Debug)]
pub enum ModelChoice {
    /// Use an external / cloud model.
    External { endpoint: String, api_key: Option<String> },
    /// Use a local model.
    Local { model_path: String },
}

/// A model choice as plain values.
pub enum ChoiceView {
    External { endpoint: Seq<char>, api_key: Option<Seq<char>> },
    Local { model_path: Seq<char> },
}

impl View for ModelChoice {
    type V = ChoiceView;

    open spec fn view(&self) -> ChoiceView {
        match self {
            ModelChoice::External { endpoint, api_key } => ChoiceView::External {
                endpoint: endpoint@,
                api_key: opt_view(*api_key),
            },
            ModelChoice::Local { model_path } => ChoiceView::Local { model_path: model_path@ },
        }
    }
}

impl ModelChoice {
    /// A copy of the choice.
    pub fn duplicate(&self) -> (r: ModelChoice)
        ensures
            r@ == self@,
    {
        match self {
            ModelChoice::External { endpoint, api_key } => ModelChoice::External {
                endpoint: endpoint.clone(),
                api_key: match api_key {
                    Some(k) => Some(k.clone()),
                    None => None,
                },
            },
            ModelChoice::Local { model_path } => ModelChoice::Local { model_path: model_path.clone() },
        }
    }
}

/// Configuration of a model router.
#[derive(Debug)]
pub struct RouterConfig {
    /// Privacy mode.
    pub privacy_mode: PrivacyMode,
    /// Timeout for external API checks, in milliseconds.
    pub external_api_timeout_ms: u64,
    /// How long routing decisions are cached, in seconds.
    pub cache_duration_seconds: u64,
    /// Hugging Face endpoint for diarization.
    pub hf_diarization_endpoint: String,
    /// Local diarization model path.
    pub local_diarization_path: String,
    /// Local LLM model path.
    pub local_llm_path: String,
}

impl Default for RouterConfig {
    /// External models preferred, a five-second check timeout, five-minute caching.
    fn default() -> (r: Self)
        ensures
            r.privacy_mode == PrivacyMode::PreferExternal,
            r.external_api_timeout_ms == 5000,
            r.cache_duration_seconds == 300,
            r.hf_diarization_endpoint@
                == "https://api-inference.huggingface.co/models/pyannote/speaker-diarization-3.1"@,
            r.local_diarization_path@ == "models/pyannote/speaker-diarization"@,
            r.local_llm_path@ == "models/llm/local"@,
    {
        RouterConfig {
            privacy_mode: PrivacyMode::PreferExternal,
            external_api_timeout_ms: 5000,
            cache_duration_seconds: 300,
            hf_diarization_endpoint: String::from_str(
                "https://api-inference.huggingface.co/models/pyannote/speaker-diarization-3.1",
            ),
            local_diarization_path: String::from_str("models/pyannote/speaker-diarization"),
            local_llm_path: String::from_str("models/llm/local"),
        }
    }
}

/// The API keys found in the environment, by provider.
#[derive(Debug)]
pub struct LlmApiKeys {
    /// `GEMINI_API_KEY`.
    pub gemini: Option<String>,
    /// `OPENAI_API_KEY`.
    pub openai: Option<String>,
    /// `ANTHROPIC_API_KEY`.
    pub anthropic: Option<String>,
    /// `HUGGINGFACE_API_KEY`.
    pub huggingface: Option<String>,
    /// `HF_TOKEN`.
    pub hf_token: Option<String>,
}

/// The Hugging Face key: `HUGGINGFACE_API_KEY`, else `HF_TOKEN`.
pub open spec fn hf_key_of(huggingface: Option<Seq<char>>, hf_token: Option<Seq<char>>) -> Option<Seq<char>> {
    match huggingface {
        Some(k) => Some(k),
        None => hf_token,
    }
}

/// The endpoint used with a Gemini key.
pub open spec fn gemini_endpoint() -> Seq<char> {
    "https://generativelanguage.googleapis.com/v1beta/models/gemini-flash-latest:generateContent"@
}

/// The endpoint used with an OpenAI key.
pub open spec fn openai_endpoint() -> Seq<char> {
    "https://api.openai.com/v1/chat/completions"@
}

/// The endpoint used with an Anthropic key.
pub open spec fn anthropic_endpoint() -> Seq<char> {
    "https://api.anthropic.com/v1/messages"@
}

/// The endpoint used with a Hugging Face key for identification.
pub open spec fn hf_llm_endpoint() -> Seq<char> {
    "https://api-inference.huggingface.co/models/meta-llama/Llama-2-7b-chat-hf"@
}

/// The message when no LLM key is configured.
pub open spec fn no_llm_key_message() -> Seq<char> {
    "No external LLM API key configured. Set GEMINI_API_KEY, OPENAI_API_KEY, ANTHROPIC_API_KEY, or HUGGINGFACE_API_KEY"@
}

/// The external LLM for the keys: Gemini, then OpenAI, then Anthropic, then
/// Hugging Face; `Err` with the message when there is no key.
pub open spec fn external_llm(k: LlmApiKeys) -> Result<ChoiceView, Seq<char>> {
    match k.gemini {
        Some(g) => Ok(ChoiceView::External { endpoint: gemini_endpoint(), api_key: Some(g@) }),
        None => match k.openai {
            Some(o) => Ok(ChoiceView::External { endpoint: openai_endpoint(), api_key: Some(o@) }),
            None => match k.anthropic {
                Some(a) => Ok(ChoiceView::External { endpoint: anthropic_endpoint(), api_key: Some(a@) }),
                None => match hf_key_of(opt_view(k.huggingface), opt_view(k.hf_token)) {
                    Some(h) => Ok(ChoiceView::External { endpoint: hf_llm_endpoint(), api_key: Some(h) }),
                    None => Err(no_llm_key_message()),
                },
            },
        },
    }
}

/// The router's cache as plain values.
pub struct CacheView {
    pub diarization: Option<ChoiceView>,
    pub llm: Option<ChoiceView>,
    pub cached_at: u64,
    pub connectivity: Option<bool>,
    pub connectivity_checked_at: u64,
}

/// The seconds from `then` to `now` (zero if the clock reads earlier).
pub open spec fn elapsed(now: u64, then: u64) -> int {
    if now >= then {
        now - then
    } else {
        0
    }
}

/// How long a connectivity check is trusted, in seconds.
pub open spec fn connectivity_ttl() -> int {
    30
}

/// The connectivity known at `now`, if it was checked recently enough.
pub open spec fn known_connectivity(s: CacheView, now: u64) -> Option<bool> {
    match s.connectivity {
        Some(b) => if elapsed(now, s.connectivity_checked_at) < connectivity_ttl() {
            Some(b)
        } else {
            None
        },
        None => None,
    }
}

/// A cached choice that is still fresh at `now`.
pub open spec fn fresh_choice(c: Option<ChoiceView>, at: u64, now: u64, duration: u64) -> Option<ChoiceView> {
    match c {
        Some(ch) => if elapsed(now, at) < duration {
            Some(ch)
        } else {
            None
        },
        None => None,
    }
}

/// What a routing step gives, as plain values.
pub enum StepView {
    /// The model to use.
    Chosen(ChoiceView),
    /// The error, by its message.
    Failed(Seq<char>),
    /// Connectivity must be checked first.
    CheckConnectivity,
}

/// A choice that the privacy mode allows.
pub open spec fn allowed(mode: PrivacyMode, ch: ChoiceView) -> bool {
    match mode {
        PrivacyMode::LocalOnly => ch is Local,
        PrivacyMode::ExternalOnly => ch is External,
        PrivacyMode::PreferExternal => true,
    }
}

/// A cache whose choices the privacy mode allows.
pub open spec fn cache_allowed(mode: PrivacyMode, s: CacheView) -> bool {
    &&& (s.diarization matches Some(ch) ==> allowed(mode, ch))
    &&& (s.llm matches Some(ch) ==> allowed(mode, ch))
}

/// The diarization model that a router with configuration `c` and cache `s`
/// picks at `now`, given the Hugging Face key.
pub open spec fn diarization_decision(
    c: RouterConfig,
    s: CacheView,
    now: u64,
    hf_key: Option<Seq<char>>,
) -> StepView {
    let local = ChoiceView::Local { model_path: c.local_diarization_path@ };
    let external = ChoiceView::External { endpoint: c.hf_diarization_endpoint@, api_key: hf_key };
    match fresh_choice(s.diarization, s.cached_at, now, c.cache_duration_seconds) {
        Some(ch) => StepView::Chosen(ch),
        None => match c.privacy_mode {
            PrivacyMode::LocalOnly => StepView::Chosen(local),
            PrivacyMode::ExternalOnly => StepView::Chosen(external),
            PrivacyMode::PreferExternal => match known_connectivity(s, now) {
                None => StepView::CheckConnectivity,
                Some(true) => StepView::Chosen(external),
                Some(false) => StepView::Chosen(local),
            },
        },
    }
}

/// The cache after a diarization step: a new choice is cached with the time.
pub open spec fn after_diarization(c: RouterConfig, s: CacheView, now: u64, hf_key: Option<Seq<char>>) -> CacheView {
    if fresh_choice(s.diarization, s.cached_at, now, c.cache_duration_seconds) is Some {
        s
    } else {
        match diarization_decision(c, s, now, hf_key) {
            StepView::Chosen(ch) => CacheView { diarization: Some(ch), cached_at: now, ..s },
            _ => s,
        }
    }
}

/// The identification model that a router with configuration `c` and cache
/// `s` picks at `now`, given the API keys.
pub open spec fn llm_decision(c: RouterConfig, s: CacheView, now: u64, keys: LlmApiKeys) -> StepView {
    let local = ChoiceView::Local { model_path: c.local_llm_path@ };
    match fresh_choice(s.llm, s.cached_at, now, c.cache_duration_seconds) {
        Some(ch) => StepView::Chosen(ch),
        None => match c.privacy_mode {
            PrivacyMode::LocalOnly => StepView::Chosen(local),
            PrivacyMode::ExternalOnly => match external_llm(keys) {
                Ok(ch) => StepView::Chosen(ch),
                Err(m) => StepView::Failed("External API error: "@ + m),
            },
            PrivacyMode::PreferExternal => match known_connectivity(s, now) {
                None => StepView::CheckConnectivity,
                Some(true) => match external_llm(keys) {
                    Ok(ch) => StepView::Chosen(ch),
                    Err(_) => StepView::Chosen(local),
                },
                Some(false) => StepView::Chosen(local),
            },
        },
    }
}

/// The cache after an identification step.
pub open spec fn after_llm(c: RouterConfig, s: CacheView, now: u64, keys: LlmApiKeys) -> CacheView {
    if fresh_choice(s.llm, s.cached_at, now, c.cache_duration_seconds) is Some {
        s
    } else {
        match llm_decision(c, s, now, keys) {
            StepView::Chosen(ch) => CacheView { llm: Some(ch), cached_at: now, ..s },
            _ => s,
        }
    }
}

/// What a routing step gives.
#[derive(Debug)]
pub enum RoutingStep {
    /// The model to use.
    Chosen(ModelChoice),
    /// Routing failed.
    Failed(DiarizationError),
    /// Check internet connectivity, record it, and step again.
    CheckConnectivity,
}

/// A routing step as plain values.
pub open spec fn step_view(r: RoutingStep) -> StepView {
    match r {
        RoutingStep::Chosen(ch) => StepView::Chosen(ch@),
        RoutingStep::Failed(e) => StepView::Failed(
            crate::diarization::errors::error_prefix(e) + match crate::diarization::errors::error_detail(e) {
                Some(d) => d,
                None => Seq::empty(),
            },
        ),
        RoutingStep::CheckConnectivity => StepView::CheckConnectivity,
    }
}

/// The cached routing state.
struct RouterCache {
    diarization_choice: Option<ModelChoice>,
    llm_choice: Option<ModelChoice>,
    cached_at: u64,
    connectivity_status: Option<bool>,
    connectivity_checked_at: u64,
}

/// An optional choice as plain values.
pub open spec fn opt_choice(c: Option<ModelChoice>) -> Option<ChoiceView> {
    match c {
        Some(ch) => Some(ch@),
        None => None,
    }
}

/// A copy of an optional choice.
fn duplicate_opt(c: &Option<ModelChoice>) -> (r: Option<ModelChoice>)
    ensures
        opt_choice(r) == opt_choice(*c),
{
    match c {
        Some(ch) => Some(ch.duplicate()),
        None => None,
    }
}

/// Chooses between external and local models.
pub struct ModelRouter {
    config: RouterConfig,
    cache: RouterCache,
}

impl ModelRouter {
    /// The configuration.
    pub closed spec fn settings(&self) -> RouterConfig {
        self.config
    }

    /// The cache, as plain values.
    pub closed spec fn cache_view(&self) -> CacheView {
        CacheView {
            diarization: opt_choice(self.cache.diarization_choice),
            llm: opt_choice(self.cache.llm_choice),
            cached_at: self.cache.cached_at,
            connectivity: self.cache.connectivity_status,
            connectivity_checked_at: self.cache.connectivity_checked_at,
        }
    }

    /// Cached choices always respect the privacy mode.
    #[verifier::type_invariant]
    closed spec fn cached_choices_allowed(&self) -> bool {
        cache_allowed(self.config.privacy_mode, self.cache_view())
    }

    /// A router with an empty cache, its clock started at zero.
    pub fn new(config: RouterConfig) -> (r: Self)
        ensures
            r.settings() == config,
            r.cache_view() == (CacheView {
                diarization: None,
                llm: None,
                cached_at: 0,
                connectivity: None,
                connectivity_checked_at: 0,
            }),
    {
        ModelRouter {
            config,
            cache: RouterCache {
                diarization_choice: None,
                llm_choice: None,
                cached_at: 0,
                connectivity_status: None,
                connectivity_checked_at: 0,
            },
        }
    }

    /// The cached choice that is still fresh at `now`.
    fn fresh(&self, c: &Option<ModelChoice>, now: u64) -> (r: Option<ModelChoice>)
        ensures
            opt_choice(r) == fresh_choice(opt_choice(*c), self.cache.cached_at, now, self.config.cache_duration_seconds),
    {
        match c {
            Some(ch) => {
                let age = now.saturating_sub(self.cache.cached_at);
                if age < self.config.cache_duration_seconds {
                    Some(ch.duplicate())
                } else {
                    None
                }
            },
            None => None,
        }
    }

    /// The connectivity known at `now`.
    fn known_connectivity(&self, now: u64) -> (r: Option<bool>)
        ensures
            r == known_connectivity(self.cache_view(), now),
    {
        match self.cache.connectivity_status {
            Some(b) => {
                if now.saturating_sub(self.cache.connectivity_checked_at) < 30 {
                    Some(b)
                } else {
                    None
                }
            },
            None => None,
        }
    }

    /// One step of choosing the diarization model at `now`: the cached choice
    /// while it is fresh; otherwise the local model (`LocalOnly`), the Hugging
    /// Face model (`ExternalOnly`), or, for `PreferExternal`, the Hugging Face
    /// model when the internet is reachable and the local one when it is not.
    /// `PreferExternal` asks for a connectivity check when none is known.
    pub fn diarization_step(&mut self, now: u64, hf_key: Option<String>) -> (r: RoutingStep)
        ensures
            step_view(r) == diarization_decision(old(self).settings(), old(self).cache_view(), now, opt_view(hf_key)),
            final(self).cache_view() == after_diarization(old(self).settings(), old(self).cache_view(), now, opt_view(hf_key)),
            final(self).settings() == old(self).settings(),
            r matches RoutingStep::Chosen(ch) ==> allowed(old(self).settings().privacy_mode, ch@),
    {
        proof {
            use_type_invariant(&*self);
        }
        match self.fresh(&self.cache.diarization_choice, now) {
            Some(ch) => return RoutingStep::Chosen(ch),
            None => {},
        }
        let choice = match self.config.privacy_mode {
            PrivacyMode::LocalOnly => ModelChoice::Local { model_path: self.config.local_diarization_path.clone() },
            PrivacyMode::ExternalOnly => ModelChoice::External {
                endpoint: self.config.hf_diarization_endpoint.clone(),
                api_key: hf_key,
            },
            PrivacyMode::PreferExternal => match self.known_connectivity(now) {
                None => return RoutingStep::CheckConnectivity,
                Some(true) => ModelChoice::External {
                    endpoint: self.config.hf_diarization_endpoint.clone(),
                    api_key: hf_key,
                },
                Some(false) => ModelChoice::Local { model_path: self.config.local_diarization_path.clone() },
            },
        };
        let kept = choice.duplicate();
        let llm_choice = duplicate_opt(&self.cache.llm_choice);
        self.cache = RouterCache {
            diarization_choice: Some(kept),
            llm_choice,
            cached_at: now,
            connectivity_status: self.cache.connectivity_status,
            connectivity_checked_at: self.cache.connectivity_checked_at,
        };
        RoutingStep::Chosen(choice)
    }

    /// The external LLM for the keys (see `external_llm`).
    fn external_llm_model(keys: &LlmApiKeys) -> (r: Result<ModelChoice, DiarizationError>)
        ensures
            match r {
                Ok(ch) => external_llm(*keys) == Ok::<ChoiceView, Seq<char>>(ch@),
                Err(e) => (e matches DiarizationError::ExternalApiError(m) && external_llm(*keys) == Err::<
                    ChoiceView,
                    Seq<char>,
                >(m@)),
            },
    {
        match &keys.gemini {
            Some(k) => return Ok(ModelChoice::External {
                endpoint: String::from_str(
                    "https://generativelanguage.googleapis.com/v1beta/models/gemini-flash-latest:generateContent",
                ),
                api_key: Some(k.clone()),
            }),
            None => {},
        }
        match &keys.openai {
            Some(k) => return Ok(ModelChoice::External {
                endpoint: String::from_str("https://api.openai.com/v1/chat/completions"),
                api_key: Some(k.clone()),
            }),
            None => {},
        }
        match &keys.anthropic {
            Some(k) => return Ok(ModelChoice::External {
                endpoint: String::from_str("https://api.anthropic.com/v1/messages"),
                api_key: Some(k.clone()),
            }),
            None => {},
        }
        let hf = match &keys.huggingface {
            Some(k) => Some(k.clone()),
            None => match &keys.hf_token {
                Some(k) => Some(k.clone()),
                None => None,
            },
        };
        match hf {
            Some(k) => Ok(ModelChoice::External {
                endpoint: String::from_str(
                    "https://api-inference.huggingface.co/models/meta-llama/Llama-2-7b-chat-hf",
                ),
                api_key: Some(k),
            }),
            None => Err(
                DiarizationError::ExternalApiError(
                    String::from_str(
                        "No external LLM API key configured. Set GEMINI_API_KEY, OPENAI_API_KEY, ANTHROPIC_API_KEY, or HUGGINGFACE_API_KEY",
                    ),
                ),
            ),
        }
    }

    /// One step of choosing the identification model at `now`: the cached
    /// choice while it is fresh; otherwise the local LLM (`LocalOnly`), the
    /// external LLM of the first configured key or an error (`ExternalOnly`),
    /// or, for `PreferExternal`, the external LLM when the internet is
    /// reachable and a key is configured, and the local one otherwise.
    pub fn llm_step(&mut self, now: u64, keys: &LlmApiKeys) -> (r: RoutingStep)
        ensures
            step_view(r) == llm_decision(old(self).settings(), old(self).cache_view(), now, *keys),
            final(self).cache_view() == after_llm(old(self).settings(), old(self).cache_view(), now, *keys),
            final(self).settings() == old(self).settings(),
            r matches RoutingStep::Chosen(ch) ==> allowed(old(self).settings().privacy_mode, ch@),
    {
        proof {
            use_type_invariant(&*self);
        }
        match self.fresh(&self.cache.llm_choice, now) {
            Some(ch) => return RoutingStep::Chosen(ch),
            None => {},
        }
        let choice = match self.config.privacy_mode {
            PrivacyMode::LocalOnly => ModelChoice::Local { model_path: self.config.local_llm_path.clone() },
            PrivacyMode::ExternalOnly => match Self::external_llm_model(keys) {
                Ok(ch) => ch,
                Err(e) => {
                    proof {
                        reveal_strlit("External API error: ");
                    }
                    return RoutingStep::Failed(e);
                },
            },
            PrivacyMode::PreferExternal => match self.known_connectivity(now) {
                None => return RoutingStep::CheckConnectivity,
                Some(true) => match Self::external_llm_model(keys) {
                    Ok(ch) => ch,
                    Err(_) => ModelChoice::Local { model_path: self.config.local_llm_path.clone() },
                },
                Some(false) => ModelChoice::Local { model_path: self.config.local_llm_path.clone() },
            },
        };
        let kept = choice.duplicate();
        let diarization_choice = duplicate_opt(&self.cache.diarization_choice);
        self.cache = RouterCache {
            diarization_choice,
            llm_choice: Some(kept),
            cached_at: now,
            connectivity_status: self.cache.connectivity_status,
            connectivity_checked_at: self.cache.connectivity_checked_at,
        };
        RoutingStep::Chosen(choice)
    }

    /// Records the outcome of a connectivity check made at `now`.
    pub fn record_connectivity(&mut self, connected: bool, now: u64)
        ensures
            final(self).settings() == old(self).settings(),
            final(self).cache_view() == (CacheView {
                connectivity: Some(connected),
                connectivity_checked_at: now,
                ..old(self).cache_view()
            }),
    {
        proof {
            use_type_invariant(&*self);
        }
        let diarization_choice = duplicate_opt(&self.cache.diarization_choice);
        let llm_choice = duplicate_opt(&self.cache.llm_choice);
        self.cache = RouterCache {
            diarization_choice,
            llm_choice,
            cached_at: self.cache.cached_at,
            connectivity_status: Some(connected),
            connectivity_checked_at: now,
        };
    }

    /// Forgets every cached decision and connectivity status (at `now`).
    pub fn clear_cache(&mut self, now: u64)
        ensures
            final(self).settings() == old(self).settings(),
            final(self).cache_view() == (CacheView {
                diarization: None,
                llm: None,
                cached_at: now,
                connectivity: None,
                connectivity_checked_at: now,
            }),
    {
        self.cache = RouterCache {
            diarization_choice: None,
            llm_choice: None,
            cached_at: now,
            connectivity_status: None,
            connectivity_checked_at: now,
        };
    }

    /// Whether a diarization and an identification choice are cached, and the
    /// last connectivity status.
    pub fn get_cache_status(&self) -> (r: (bool, bool, Option<bool>))
        ensures
            r == (self.cache_view().diarization is Some, self.cache_view().llm is Some, self.cache_view().connectivity),
    {
        (
            self.cache.diarization_choice.is_some(),
            self.cache.llm_choice.is_some(),
            self.cache.connectivity_status,
        )
    }
}

/// Routing respects the privacy mode: from a cache that does, every choice is
/// allowed (`LocalOnly` never picks an external model, `ExternalOnly` never a
/// local one), and the cache after the step still does.
pub proof fn lemma_routing_respects_privacy(
    c: RouterConfig,
    s: CacheView,
    now: u64,
    hf_key: Option<Seq<char>>,
    keys: LlmApiKeys,
)
    requires
        cache_allowed(c.privacy_mode, s),
    ensures
        diarization_decision(c, s, now, hf_key) matches StepView::Chosen(ch) ==> allowed(c.privacy_mode, ch),
        llm_decision(c, s, now, keys) matches StepView::Chosen(ch) ==> allowed(c.privacy_mode, ch),
        cache_allowed(c.privacy_mode, after_diarization(c, s, now, hf_key)),
        cache_allowed(c.privacy_mode, after_llm(c, s, now, keys)),
{
}

/// A choice that a step made is given again by every step within the cache
/// duration (whatever key it is given then).
pub proof fn lemma_choices_are_cached(
    c: RouterConfig,
    s: CacheView,
    t: u64,
    hf_key: Option<Seq<char>>,
    keys: LlmApiKeys,
    t2: u64,
    hf_key2: Option<Seq<char>>,
    keys2: LlmApiKeys,
)
    requires
        t <= t2,
        t2 - t < c.cache_duration_seconds,
    ensures
        fresh_choice(s.diarization, s.cached_at, t, c.cache_duration_seconds) is None
            && diarization_decision(c, s, t, hf_key) is Chosen ==> diarization_decision(
            c,
            after_diarization(c, s, t, hf_key),
            t2,
            hf_key2,
        ) == diarization_decision(c, s, t, hf_key),
        fresh_choice(s.llm, s.cached_at, t, c.cache_duration_seconds) is None && llm_decision(
            c,
            s,
            t,
            keys,
        ) is Chosen ==> llm_decision(c, after_llm(c, s, t, keys), t2, keys2) == llm_decision(c, s, t, keys),
{
}

/// Once connectivity is recorded, a step at the same time does not ask for
/// another check: the step loop ends.
pub proof fn lemma_recorded_connectivity_is_used(
    c: RouterConfig,
    s: CacheView,
    connected: bool,
    now: u64,
    hf_key: Option<Seq<char>>,
    keys: LlmApiKeys,
)
    ensures
        !(diarization_decision(
            c,
            CacheView { connectivity: Some(connected), connectivity_checked_at: now, ..s },
            now,
            hf_key,
        ) is CheckConnectivity),
        !(llm_decision(
            c,
            CacheView { connectivity: Some(connected), connectivity_checked_at: now, ..s },
            now,
            keys,
        ) is CheckConnectivity),
{
}

/// Only `PreferExternal` ever asks for a connectivity check, and diarization
/// routing never fails.
pub proof fn lemma_only_prefer_external_checks(
    c: RouterConfig,
    s: CacheView,
    now: u64,
    hf_key: Option<Seq<char>>,
    keys: LlmApiKeys,
)
    ensures
        diarization_decision(c, s, now, hf_key) is CheckConnectivity ==> c.privacy_mode
            == PrivacyMode::PreferExternal,
        llm_decision(c, s, now, keys) is CheckConnectivity ==> c.privacy_mode == PrivacyMode::PreferExternal,
        !(diarization_decision(c, s, now, hf_key) is Failed),
        llm_decision(c, s, now, keys) is Failed ==> c.privacy_mode == PrivacyMode::ExternalOnly
            && external_llm(keys) is Err,
{
}

/// Identification prefers an external model when it can have one: when
/// external models are preferred, nothing is cached, the internet was found
/// reachable within the last thirty seconds and an API key is configured, the
/// step chooses the external LLM of the first configured key — Gemini, then
/// OpenAI, then Anthropic, then Hugging Face (`HUGGINGFACE_API_KEY`, else
/// `HF_TOKEN`) — with that key.
pub proof fn lemma_prefer_external_uses_first_key(c: RouterConfig, s: CacheView, now: u64, keys: LlmApiKeys)
    requires
        c.privacy_mode == PrivacyMode::PreferExternal,
        s.llm is None,
        s.connectivity == Some(true),
        s.connectivity_checked_at <= now < s.connectivity_checked_at + 30,
    ensures
        (keys.gemini is Some) ==> llm_decision(c, s, now, keys) == StepView::Chosen(
            ChoiceView::External {
                endpoint: "https://generativelanguage.googleapis.com/v1beta/models/gemini-flash-latest:generateContent"@,
                api_key: Some(keys.gemini->0@),
            },
        ),
        (keys.gemini is None && keys.openai is Some) ==> llm_decision(c, s, now, keys) == StepView::Chosen(
            ChoiceView::External { endpoint: "https://api.openai.com/v1/chat/completions"@, api_key: Some(keys.openai->0@) },
        ),
        (keys.gemini is None && keys.openai is None && keys.anthropic is Some) ==> llm_decision(c, s, now, keys)
            == StepView::Chosen(
            ChoiceView::External { endpoint: "https://api.anthropic.com/v1/messages"@, api_key: Some(keys.anthropic->0@) },
        ),
        keys.gemini is None && keys.openai is None && keys.anthropic is None && keys.huggingface is Some
            ==> llm_decision(c, s, now, keys) == StepView::Chosen(
            ChoiceView::External {
                endpoint: "https://api-inference.huggingface.co/models/meta-llama/Llama-2-7b-chat-hf"@,
                api_key: Some(keys.huggingface->0@),
            },
        ),
        (keys.gemini is None && keys.openai is None && keys.anthropic is None && keys.huggingface is None
            && keys.hf_token is Some) ==> llm_decision(c, s, now, keys) == StepView::Chosen(
            ChoiceView::External {
                endpoint: "https://api-inference.huggingface.co/models/meta-llama/Llama-2-7b-chat-hf"@,
                api_key: Some(keys.hf_token->0@),
            },
        ),
        (keys.gemini is None && keys.openai is None && keys.anthropic is None && keys.huggingface is None
            && keys.hf_token is None) ==> llm_decision(c, s, now, keys) == StepView::Chosen(
            ChoiceView::Local { model_path: c.local_llm_path@ },
        ),
{
}

/// Diarization follows connectivity when external models are preferred and
/// nothing is cached: with the internet found reachable within the last
/// thirty seconds it uses the configured Hugging Face endpoint with the given
/// key; found unreachable, the local model; not known, it asks for a check.
pub proof fn lemma_prefer_external_diarization_follows_connectivity(
    c: RouterConfig,
    s: CacheView,
    now: u64,
    hf_key: Option<Seq<char>>,
)
    requires
        c.privacy_mode == PrivacyMode::PreferExternal,
        s.diarization is None,
    ensures
        (s.connectivity == Some(true) && s.connectivity_checked_at <= now < s.connectivity_checked_at + 30)
            ==> diarization_decision(c, s, now, hf_key) == StepView::Chosen(
            ChoiceView::External { endpoint: c.hf_diarization_endpoint@, api_key: hf_key },
        ),
        (s.connectivity == Some(false) && s.connectivity_checked_at <= now < s.connectivity_checked_at + 30)
            ==> diarization_decision(c, s, now, hf_key) == StepView::Chosen(
            ChoiceView::Local { model_path: c.local_diarization_path@ },
        ),
        s.connectivity is None ==> diarization_decision(c, s, now, hf_key) is CheckConnectivity,
{
}

} // verus!
