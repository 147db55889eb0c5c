//! Error recovery for diarization: which errors are retried, how long to wait
//! between attempts, which simpler processing mode to fall back to, and when a
//! transcript is kept without speaker information.
//!
//! Retries back off exponentially (1 s, 2 s, 4 s with the defaults): after the
//! first attempt the operation is retried up to `max_retries` times, so it is
//! attempted at most `max_retries + 1` times.

use vstd::prelude::*;
use core::time::Duration;
use crate::diarization::errors::DiarizationError;
use crate::diarization::types::ProcessingMode;

verus! {

/// Configuration for error recovery.
#[derive(Clone, Copy, Debug)]
pub struct ErrorRecoveryConfig {
    /// Maximum number of retries after the first attempt.
    pub max_retries: u32,
    /// Initial retry delay in milliseconds.
    pub initial_retry_delay_ms: u64,
    /// Whether the delay doubles after each retry.
    pub use_exponential_backoff: bool,
    /// Whether to fall back to a simpler processing mode.
    pub enable_fallback: bool,
    /// Whether a failure leaves the transcript without speaker information
    /// instead of failing it.
    pub enable_graceful_degradation: bool,
}

impl Default for ErrorRecoveryConfig {
    /// Three attempts, one second at first, doubling, with fallback and degradation.
    fn default() -> (r: Self)
        ensures
            r.max_retries == 3,
            r.initial_retry_delay_ms == 1000,
            r.use_exponential_backoff,
            r.enable_fallback,
            r.enable_graceful_degradation,
    {
        ErrorRecoveryConfig {
            max_retries: 3,
            initial_retry_delay_ms: 1000,
            use_exponential_backoff: true,
            enable_fallback: true,
            enable_graceful_degradation: true,
        }
    }
}

/// Errors worth retrying: network, external API, database and resource errors.
pub open spec fn retryable(e: DiarizationError) -> bool {
    match e {
        DiarizationError::NetworkError(_) => true,
        DiarizationError::ExternalApiError(_) => true,
        DiarizationError::DatabaseError(_) => true,
        DiarizationError::ResourceError(_) => true,
        _ => false,
    }
}

/// `base` doubled `attempt` times, i.e. `base * 2^attempt`.
pub open spec fn doubled(base: nat, attempt: nat) -> nat
    decreases attempt,
{
    if attempt == 0 {
        base
    } else {
        2 * doubled(base, (attempt - 1) as nat)
    }
}

/// The delay before retry number `attempt` (counting from 0), in milliseconds.
pub open spec fn retry_delay(c: ErrorRecoveryConfig, attempt: nat) -> nat {
    if c.use_exponential_backoff {
        doubled(c.initial_retry_delay_ms as nat, attempt)
    } else {
        c.initial_retry_delay_ms as nat
    }
}

/// The delay of `attempt` can be computed: `2^attempt` fits in a `u64` and so
/// does the product.
pub open spec fn retry_delay_fits(c: ErrorRecoveryConfig, attempt: u32) -> bool {
    c.use_exponential_backoff ==> attempt < 64 && retry_delay(c, attempt as nat) <= u64::MAX
}

/// The simpler mode to try after a failure in `mode`.
pub open spec fn fallback_mode(c: ErrorRecoveryConfig, mode: ProcessingMode) -> Option<ProcessingMode> {
    if !c.enable_fallback {
        None
    } else {
        match mode {
            ProcessingMode::RealTime { chunk_size_ms } => if chunk_size_ms > 1000 {
                Some(ProcessingMode::RealTime { chunk_size_ms: (chunk_size_ms / 2) as u32 })
            } else {
                Some(ProcessingMode::Batch)
            },
            ProcessingMode::Batch => None,
        }
    }
}

/// The `Duration` of `ms` milliseconds (`Duration::from_millis`).
pub uninterp spec fn millis_duration(ms: u64) -> Duration;

/// `Duration::from_millis`; the result is only named.
#[verifier::external_body]
fn duration_from_millis(ms: u64) -> (d: Duration)
    ensures
        d == millis_duration(ms),
{
    Duration::from_millis(ms)
}

/// Where a retry loop stands: how many attempts failed and the next delay.
#[derive(Clone, Copy, Debug, PartialEq, Eq, Structural)]
pub struct RetryState {
    /// Attempts that failed so far.
    pub attempts: u32,
    /// Delay before the next attempt, in milliseconds.
    pub delay_ms: u64,
}

/// What to do after an attempt failed.
#[derive(Clone, Copy, Debug, PartialEq, Eq, Structural)]
pub enum RetryStep {
    /// Return the error; `attempts` attempts were made.
    GiveUp { attempts: u32 },
    /// Wait `wait_ms` milliseconds, then try again from `next`.
    Wait { wait_ms: u64, next: RetryState },
}

/// The state in which a retry loop starts.
pub open spec fn retry_start_state(c: ErrorRecoveryConfig) -> RetryState {
    RetryState { attempts: 0, delay_ms: c.initial_retry_delay_ms }
}

/// The step after a failure in state `s`: `s.attempts + 1` attempts have now
/// failed; give up once `max_retries` retries were made, otherwise wait before
/// retry number `s.attempts + 1`.
pub open spec fn retry_step(c: ErrorRecoveryConfig, s: RetryState) -> RetryStep {
    if s.attempts >= c.max_retries {
        RetryStep::GiveUp { attempts: (s.attempts + 1) as u32 }
    } else {
        RetryStep::Wait {
            wait_ms: s.delay_ms,
            next: RetryState {
                attempts: (s.attempts + 1) as u32,
                delay_ms: if c.use_exponential_backoff {
                    (s.delay_ms * 2) as u64
                } else {
                    s.delay_ms
                },
            },
        }
    }
}

/// The step after a failure in `s` can be computed without overflow.
pub open spec fn retry_step_fits(c: ErrorRecoveryConfig, s: RetryState) -> bool {
    &&& s.attempts < u32::MAX
    &&& (s.attempts < c.max_retries && c.use_exponential_backoff) ==> s.delay_ms * 2 <= u64::MAX
}

/// The user-facing description of an error.
pub open spec fn user_message(e: DiarizationError) -> Seq<char> {
    match e {
        DiarizationError::AudioProcessingError(_) => "Audio quality may be insufficient for speaker detection"@,
        DiarizationError::ModelLoadError(_) => "Speaker detection model could not be loaded"@,
        DiarizationError::IdentificationError(_) => "Could not identify speaker names from transcript"@,
        DiarizationError::DatabaseError(_) => "Could not save speaker information"@,
        DiarizationError::ResourceConstraintError(_) => "Insufficient system resources for speaker detection"@,
        DiarizationError::NetworkError(_) => "Network connection required for speaker detection"@,
        DiarizationError::ExternalApiError(_) => "External service unavailable for speaker detection"@,
        _ => "Speaker detection encountered an error"@,
    }
}

/// Error recovery coordinator.
pub struct ErrorRecoveryCoordinator {
    config: ErrorRecoveryConfig,
}

impl ErrorRecoveryCoordinator {
    /// The configuration the coordinator was made with.
    pub closed spec fn settings(&self) -> ErrorRecoveryConfig {
        self.config
    }

    /// A coordinator with the given configuration.
    pub fn new(config: ErrorRecoveryConfig) -> (r: Self)
        ensures
            r.settings() == config,
    {
        ErrorRecoveryCoordinator { config }
    }

    /// The state in which `retry_with_backoff` starts.
    pub fn retry_start(&self) -> (s: RetryState)
        ensures
            s == retry_start_state(self.settings()),
    {
        RetryState { attempts: 0, delay_ms: self.config.initial_retry_delay_ms }
    }

    /// The decision of `retry_with_backoff` after the operation failed in state
    /// `state`: give up once `max_retries` retries have failed too, otherwise
    /// wait the current delay (which then doubles, with exponential backoff).
    pub fn retry_after_failure(&self, state: RetryState) -> (r: RetryStep)
        requires
            retry_step_fits(self.settings(), state),
        ensures
            r == retry_step(self.settings(), state),
    {
        let attempts = state.attempts + 1;
        if state.attempts >= self.config.max_retries {
            RetryStep::GiveUp { attempts }
        } else {
            let next_delay = if self.config.use_exponential_backoff {
                state.delay_ms * 2
            } else {
                state.delay_ms
            };
            RetryStep::Wait { wait_ms: state.delay_ms, next: RetryState { attempts, delay_ms: next_delay } }
        }
    }

    /// Handles a diarization error: with graceful degradation the transcript
    /// goes on without speaker segments (`Some` of an empty list), otherwise
    /// `None`.
    pub fn handle_diarization_error<T>(&self, error: &DiarizationError, context: &str) -> (r: Option<Vec<T>>)
        ensures
            r is Some <==> self.settings().enable_graceful_degradation,
            r matches Some(v) ==> v@.len() == 0,
    {
        if !self.config.enable_graceful_degradation {
            return None;
        }
        Some(Vec::new())
    }

    /// Handles an identification error: with graceful degradation the speaker
    /// labels are used instead of names (`true`).
    pub fn handle_identification_error(&self, error: &DiarizationError, context: &str) -> (r: bool)
        ensures
            r == self.settings().enable_graceful_degradation,
    {
        self.config.enable_graceful_degradation
    }

    /// Whether an error is worth retrying.
    pub fn is_retryable_error(&self, error: &DiarizationError) -> (r: bool)
        ensures
            r == retryable(*error),
    {
        match error {
            DiarizationError::NetworkError(_) => true,
            DiarizationError::ExternalApiError(_) => true,
            DiarizationError::DatabaseError(_) => true,
            DiarizationError::ResourceError(_) => true,
            _ => false,
        }
    }

    /// The simpler processing mode to fall back to, if any: half the chunk size
    /// for real-time chunks over one second, batch mode for smaller ones, and
    /// none for batch mode.
    pub fn suggest_fallback_mode(&self, original_mode: ProcessingMode) -> (r: Option<ProcessingMode>)
        ensures
            r == fallback_mode(self.settings(), original_mode),
    {
        if !self.config.enable_fallback {
            return None;
        }
        match original_mode {
            ProcessingMode::RealTime { chunk_size_ms } => {
                if chunk_size_ms > 1000 {
                    Some(ProcessingMode::RealTime { chunk_size_ms: chunk_size_ms / 2 })
                } else {
                    Some(ProcessingMode::Batch)
                }
            },
            ProcessingMode::Batch => None,
        }
    }

    /// The message shown to users for an error (the full error is only logged).
    pub fn user_message(&self, error: &DiarizationError) -> (r: String)
        ensures
            r@ == user_message(*error),
    {
        let m: &str = match error {
            DiarizationError::AudioProcessingError(_) => "Audio quality may be insufficient for speaker detection",
            DiarizationError::ModelLoadError(_) => "Speaker detection model could not be loaded",
            DiarizationError::IdentificationError(_) => "Could not identify speaker names from transcript",
            DiarizationError::DatabaseError(_) => "Could not save speaker information",
            DiarizationError::ResourceConstraintError(_) => "Insufficient system resources for speaker detection",
            DiarizationError::NetworkError(_) => "Network connection required for speaker detection",
            DiarizationError::ExternalApiError(_) => "External service unavailable for speaker detection",
            _ => "Speaker detection encountered an error",
        };
        String::from_str(m)
    }

    /// Whether attempt number `attempt` (counting from 0) should be retried.
    pub fn should_retry(&self, error: &DiarizationError, attempt: u32) -> (r: bool)
        ensures
            r == (attempt < self.settings().max_retries && retryable(*error)),
    {
        if attempt >= self.config.max_retries {
            return false;
        }
        self.is_retryable_error(error)
    }

    /// The delay before retry number `attempt`, in milliseconds.
    pub fn calculate_retry_delay_ms(&self, attempt: u32) -> (r: u64)
        requires
            retry_delay_fits(self.settings(), attempt),
        ensures
            r == retry_delay(self.settings(), attempt as nat),
    {
        let base = self.config.initial_retry_delay_ms;
        if !self.config.use_exponential_backoff {
            return base;
        }
        let mut d: u64 = base;
        let mut i: u32 = 0;
        while i < attempt
            invariant
                i <= attempt,
                d == doubled(base as nat, i as nat),
                doubled(base as nat, attempt as nat) <= u64::MAX,
            decreases attempt - i,
        {
            proof {
                lemma_doubled_monotone(base as nat, (i + 1) as nat, attempt as nat);
            }
            d = d * 2;
            i = i + 1;
        }
        d
    }

    /// The delay before retry number `attempt`.
    pub fn calculate_retry_delay(&self, attempt: u32) -> (r: Duration)
        requires
            retry_delay_fits(self.settings(), attempt),
        ensures
            r == millis_duration(retry_delay(self.settings(), attempt as nat) as u64),
    {
        let ms = self.calculate_retry_delay_ms(attempt);
        duration_from_millis(ms)
    }
}

/// Doubling more often never gives less.
pub proof fn lemma_doubled_monotone(base: nat, i: nat, j: nat)
    requires
        i <= j,
    ensures
        doubled(base, i) <= doubled(base, j),
    decreases j,
{
    if i < j {
        lemma_doubled_monotone(base, i, (j - 1) as nat);
    }
}

/// Retries of `retry_with_backoff` wait exactly what `calculate_retry_delay`
/// gives: after `k` failed attempts that were retried, the loop waits
/// `retry_delay(c, k)` and goes on with `k + 1` attempts and the delay of the
/// next retry.
pub proof fn lemma_retry_waits_follow_delays(c: ErrorRecoveryConfig, k: u32)
    requires
        k < c.max_retries,
        retry_delay(c, k as nat + 1) <= u64::MAX,
    ensures
        retry_step(c, RetryState { attempts: k, delay_ms: retry_delay(c, k as nat) as u64 })
            == (RetryStep::Wait {
            wait_ms: retry_delay(c, k as nat) as u64,
            next: RetryState { attempts: (k + 1) as u32, delay_ms: retry_delay(c, k as nat + 1) as u64 },
        }),
{
    lemma_doubled_monotone(c.initial_retry_delay_ms as nat, k as nat, k as nat + 1);
    assert(doubled(c.initial_retry_delay_ms as nat, (k as nat + 1) as nat) == 2 * doubled(
        c.initial_retry_delay_ms as nat,
        k as nat,
    ));
}

/// `retry_with_backoff` gives up exactly when the first attempt and
/// `max_retries` retries have failed, and reports how many attempts failed.
pub proof fn lemma_retry_gives_up_at_max(c: ErrorRecoveryConfig, s: RetryState)
    requires
        s.attempts < u32::MAX,
    ensures
        retry_step(c, s) is GiveUp <==> s.attempts >= c.max_retries,
        retry_step(c, s) matches RetryStep::GiveUp { attempts } ==> attempts == s.attempts + 1,
{
}

/// With backoff, each delay doubles the previous one; without it, every
/// attempt waits the same.
pub proof fn lemma_retry_delay_doubles(c: ErrorRecoveryConfig, attempt: nat)
    ensures
        c.use_exponential_backoff ==> retry_delay(c, attempt + 1) == 2 * retry_delay(c, attempt),
        !c.use_exponential_backoff ==> retry_delay(c, attempt + 1) == retry_delay(c, attempt),
{
    assert(doubled(c.initial_retry_delay_ms as nat, (attempt + 1) as nat) == 2 * doubled(
        c.initial_retry_delay_ms as nat,
        attempt,
    ));
}

/// A fallback is always simpler: real-time chunks get strictly smaller (down
/// to batch mode), and batch mode has no fallback.
pub proof fn lemma_fallback_is_simpler(c: ErrorRecoveryConfig, mode: ProcessingMode)
    ensures
        mode is Batch ==> fallback_mode(c, mode) is None,
        fallback_mode(c, mode) matches Some(ProcessingMode::RealTime { chunk_size_ms: smaller })
            ==> mode matches ProcessingMode::RealTime { chunk_size_ms } && smaller < chunk_size_ms,
{
}

/// The mode reached by asking for a fallback `k` times in a row, starting
/// from `mode` (`None` once there is no fallback left).
pub open spec fn fallback_after(c: ErrorRecoveryConfig, mode: Option<ProcessingMode>, k: nat) -> Option<ProcessingMode>
    decreases k,
{
    if k == 0 {
        mode
    } else {
        match mode {
            Some(m) => fallback_after(c, fallback_mode(c, m), (k - 1) as nat),
            None => None,
        }
    }
}

/// How many fallbacks it takes from `mode` to reach `None` (with fallback
/// enabled).
pub open spec fn fallback_steps(mode: ProcessingMode) -> nat
    decreases (match mode {
        ProcessingMode::RealTime { chunk_size_ms } => chunk_size_ms as nat + 1,
        ProcessingMode::Batch => 0,
    }),
{
    match mode {
        ProcessingMode::RealTime { chunk_size_ms } => if chunk_size_ms > 1000 {
            1 + fallback_steps(ProcessingMode::RealTime { chunk_size_ms: (chunk_size_ms / 2) as u32 })
        } else {
            2
        },
        ProcessingMode::Batch => 1,
    }
}

/// Asking for a fallback `fallback_steps(mode)` times or more ends in `None`.
proof fn lemma_fallback_after_steps(c: ErrorRecoveryConfig, mode: ProcessingMode, k: nat)
    requires
        k >= fallback_steps(mode),
    ensures
        fallback_after(c, Some(mode), k) is None,
    decreases fallback_steps(mode),
{
    if !c.enable_fallback {
        assert(fallback_after(c, None, (k - 1) as nat) is None) by {
            reveal_with_fuel(fallback_after, 2);
        }
    } else {
        match mode {
            ProcessingMode::Batch => {
                assert(fallback_after(c, None, (k - 1) as nat) is None) by {
                    reveal_with_fuel(fallback_after, 2);
                }
            },
            ProcessingMode::RealTime { chunk_size_ms } => {
                if chunk_size_ms > 1000 {
                    let next = ProcessingMode::RealTime { chunk_size_ms: (chunk_size_ms / 2) as u32 };
                    lemma_fallback_after_steps(c, next, (k - 1) as nat);
                } else {
                    lemma_fallback_after_steps(c, ProcessingMode::Batch, (k - 1) as nat);
                }
            },
        }
    }
}

/// A real-time chunk below `1001 * 2^j` milliseconds runs out of fallbacks
/// within `j + 2` steps.
proof fn lemma_fallback_steps_bound(chunk_size_ms: u32, j: nat)
    requires
        (chunk_size_ms as nat) < doubled(1001, j),
    ensures
        fallback_steps(ProcessingMode::RealTime { chunk_size_ms }) <= j + 2,
    decreases j,
{
    if chunk_size_ms > 1000 {
        if j == 0 {
            assert(doubled(1001, 0) == 1001);
        } else {
            assert(doubled(1001, j) == 2 * doubled(1001, (j - 1) as nat));
            lemma_fallback_steps_bound((chunk_size_ms / 2) as u32, (j - 1) as nat);
        }
    }
}

/// The fallback chain ends: from any mode, asking for a fallback 25 times in
/// a row (each time from the mode the last one gave) reaches `None`.
pub proof fn lemma_fallback_chain_ends(c: ErrorRecoveryConfig, mode: ProcessingMode)
    ensures
        fallback_after(c, Some(mode), 25) is None,
{
    match mode {
        ProcessingMode::RealTime { chunk_size_ms } => {
            assert(doubled(1001, 23) == 8396996608) by {
                reveal_with_fuel(doubled, 24);
            }
            lemma_fallback_steps_bound(chunk_size_ms, 23);
        },
        ProcessingMode::Batch => {},
    }
    lemma_fallback_after_steps(c, mode, 25);
}

/// Only transient failures are retried: network, external API, database and
/// resource errors. Every other kind (model loading, audio processing,
/// configuration, consent, identification, embedding, export, I/O, ...) is
/// given up on at once, whatever the attempt.
pub proof fn lemma_only_transient_errors_are_retried(e: DiarizationError)
    ensures
        retryable(e) <==> (e is NetworkError || e is ExternalApiError || e is DatabaseError || e is ResourceError),
{
}

} // verus!
