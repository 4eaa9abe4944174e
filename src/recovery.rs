//! The recovery manager: per-stream policy, retry settings and circuit
//! breaker; a bounded failure history; recovery telemetry.
use vstd::prelude::*;
use vstd::string::*;
use std::collections::VecDeque;

use crate::backoff::{calculate_delay, retry_delay};
use crate::circuit::{
    after_failure, after_query, after_success, allows, CircuitBreaker, CircuitBreakerConfig,
    CircuitState,
};
use crate::classify::{action_succeeds, classify_error, default_action, is_success};
use crate::error::{kind_name, DslError, DslResult};
use crate::model::{RecoveryAction, RetryConfig};
use crate::shared_map::{
    breaker_entries, breaker_map_get, breaker_map_insert, config_entries, config_map_get, config_map_insert,
    new_breaker_map, new_config_map, new_policy_map, policy_entries, policy_map_get, policy_map_insert,
};
use dashmap::DashMap;

verus! {

/// The most entries that the failure history and the recovery-time window
/// keep; the oldest leave first.
pub const HISTORY_LIMIT: usize = 1000;

/// Recent failures at or above which the default strategy asks to break
/// the circuit.
pub const STRATEGY_BREAK_FAILURES: u32 = 5;

/// How a strategy decides: the action for an error at a zero-based
/// attempt, the delay before that attempt, and whether a number of recent
/// failures should break the circuit. Each method returns what its spec
/// function names; `DefaultRecoveryStrategy` implements it.
pub trait RecoveryStrategy {
    spec fn decision(&self, error: DslError, attempt: u32) -> RecoveryAction;

    spec fn delay(&self, attempt: u32) -> int;

    spec fn breaks(&self, recent_failures: u32) -> bool;

    fn decide_action(&self, error: &DslError, attempt: u32) -> (r: RecoveryAction)
        ensures
            r == self.decision(*error, attempt),
    ;

    fn calculate_delay(&self, attempt: u32) -> (r: u64)
        ensures
            r as int == self.delay(attempt),
    ;

    fn should_circuit_break(&self, recent_failures: u32) -> (r: bool)
        ensures
            r == self.breaks(recent_failures),
    ;
}

/// Retry until the attempt budget is spent, waiting `base_delay_ms` times
/// the attempt number.
#[derive(Debug, Clone, Copy, PartialEq, Eq, Structural)]
pub struct DefaultRecoveryStrategy {
    pub max_attempts: u32,
    pub base_delay_ms: u64,
}

/// `x · y`, or the largest `u64` where that does not fit.
pub open spec fn saturating_product(x: int, y: int) -> int {
    if x * y <= 0xffff_ffff_ffff_ffff {
        x * y
    } else {
        0xffff_ffff_ffff_ffff
    }
}

impl DefaultRecoveryStrategy {
    pub open spec fn spec_decide(self, attempt: u32) -> RecoveryAction {
        if attempt < self.max_attempts {
            RecoveryAction::Retry
        } else {
            RecoveryAction::Escalate
        }
    }

    pub open spec fn spec_delay(self, attempt: u32) -> int {
        saturating_product(self.base_delay_ms as int, attempt as int)
    }

    pub fn new(max_attempts: u32, base_delay_ms: u64) -> (r: DefaultRecoveryStrategy)
        ensures
            r.max_attempts == max_attempts,
            r.base_delay_ms == base_delay_ms,
    {
        DefaultRecoveryStrategy { max_attempts, base_delay_ms }
    }

    /// Retry below the attempt budget, escalate at or above it.
    pub fn decide(&self, attempt: u32) -> (r: RecoveryAction)
        ensures
            r == self.spec_decide(attempt),
    {
        if attempt < self.max_attempts {
            RecoveryAction::Retry
        } else {
            RecoveryAction::Escalate
        }
    }

    /// `base_delay_ms · attempt`, saturating.
    pub fn delay_for(&self, attempt: u32) -> (r: u64)
        ensures
            r == self.spec_delay(attempt),
    {
        assert(self.base_delay_ms as u128 * attempt as u128 <= 0xffff_ffff_ffff_ffff_u128 * 0xffff_ffff_u128) by (nonlinear_arith)
            requires
                self.base_delay_ms <= 0xffff_ffff_ffff_ffff_u64,
                attempt <= 0xffff_ffff_u32,
        ;
        let p: u128 = self.base_delay_ms as u128 * attempt as u128;
        if p <= 0xffff_ffff_ffff_ffff_u128 {
            p as u64
        } else {
            0xffff_ffff_ffff_ffff_u64
        }
    }

    /// Break the circuit at five or more recent failures.
    pub fn breaks_at(&self, recent_failures: u32) -> (r: bool)
        ensures
            r == (recent_failures >= STRATEGY_BREAK_FAILURES),
    {
        recent_failures >= STRATEGY_BREAK_FAILURES
    }
}

impl RecoveryStrategy for DefaultRecoveryStrategy {
    /// Retry below the attempt budget, escalate at or above it; the error
    /// does not matter.
    open spec fn decision(&self, error: DslError, attempt: u32) -> RecoveryAction {
        self.spec_decide(attempt)
    }

    /// `base_delay_ms · attempt`, saturating.
    open spec fn delay(&self, attempt: u32) -> int {
        self.spec_delay(attempt)
    }

    /// Five or more recent failures.
    open spec fn breaks(&self, recent_failures: u32) -> bool {
        recent_failures >= STRATEGY_BREAK_FAILURES
    }

    fn decide_action(&self, _error: &DslError, attempt: u32) -> (r: RecoveryAction) {
        self.decide(attempt)
    }

    fn calculate_delay(&self, attempt: u32) -> (r: u64) {
        self.delay_for(attempt)
    }

    fn should_circuit_break(&self, recent_failures: u32) -> (r: bool) {
        self.breaks_at(recent_failures)
    }
}

/// How a stream's failures are answered.
#[derive(Debug, Clone, Copy, PartialEq, Eq, Structural)]
pub enum RecoveryPolicy {
    /// Retry at once.
    Immediate,
    /// Retry after a fixed delay in milliseconds.
    FixedDelay(u64),
    /// Capped exponential backoff under the stream's retry settings, with
    /// the default action mapping.
    Exponential,
    /// A strategy of the caller's choosing.
    Custom(DefaultRecoveryStrategy),
}

/// What to do about one failure, and how long to wait first.
#[derive(Debug, Clone, Copy, PartialEq, Eq, Structural)]
pub struct RecoveryDecision {
    pub action: RecoveryAction,
    pub delay_ms: u64,
}

impl RecoveryDecision {
    /// What the caller sees: Escalate surfaces as RecoveryFailed; every
    /// other action is handed on.
    pub fn outcome(&self) -> (r: DslResult<RecoveryAction>)
        ensures
            self.action == RecoveryAction::Escalate ==> (r matches Err(DslError::RecoveryFailed(_))),
            self.action != RecoveryAction::Escalate ==> r == Ok::<RecoveryAction, DslError>(self.action),
    {
        if self.action == RecoveryAction::Escalate {
            Err(DslError::RecoveryFailed(String::from_str("Recovery escalated")))
        } else {
            Ok(self.action)
        }
    }
}

/// The decision of a policy for one failure.
pub open spec fn policy_decision(
    policy: RecoveryPolicy,
    config: RetryConfig,
    error: DslError,
    attempt: u32,
    sample: u32,
) -> RecoveryDecision {
    match policy {
        RecoveryPolicy::Immediate => RecoveryDecision { action: RecoveryAction::Retry, delay_ms: 0 },
        RecoveryPolicy::FixedDelay(d) => RecoveryDecision { action: RecoveryAction::Retry, delay_ms: d },
        RecoveryPolicy::Exponential => RecoveryDecision {
            action: default_action(error, attempt, config.max_attempts),
            delay_ms: retry_delay(config, attempt as nat, sample) as u64,
        },
        RecoveryPolicy::Custom(s) => RecoveryDecision {
            action: s.spec_decide(attempt),
            delay_ms: s.spec_delay(attempt) as u64,
        },
    }
}

/// One recorded failure.
#[derive(Debug)]
pub struct FailurePattern {
    pub timestamp_ms: u64,
    pub error_type: String,
    pub stream_name: String,
}

/// `s` with `x` appended, dropping the oldest entry beyond the limit.
pub open spec fn bounded_push<T>(s: Seq<T>, x: T) -> Seq<T> {
    let t = s.push(x);
    if t.len() > HISTORY_LIMIT {
        t.subrange(t.len() - HISTORY_LIMIT, t.len() as int)
    } else {
        t
    }
}

/// `x + 1`, or `x` at the top of `u64`.
pub open spec fn bump(x: u64) -> u64 {
    if x < 0xffff_ffff_ffff_ffff {
        (x + 1) as u64
    } else {
        x
    }
}

fn bump_counter(x: u64) -> (r: u64)
    ensures
        r == bump(x),
{
    if x < 0xffff_ffff_ffff_ffff {
        x + 1
    } else {
        x
    }
}

/// The sum of a sequence of durations.
pub open spec fn total_of(s: Seq<u64>) -> int
    decreases s.len(),
{
    if s.len() == 0 {
        0
    } else {
        total_of(s.drop_last()) + s.last()
    }
}

/// Snapshot of the recovery telemetry.
#[derive(Debug, Clone, Copy, PartialEq, Eq, Structural)]
pub struct RecoveryStats {
    pub total_recoveries: u64,
    pub failed_recoveries: u64,
    pub circuit_trips: u64,
    /// Mean of the recorded recovery times in ms; `None` before the first.
    pub avg_recovery_time_ms: Option<u64>,
}

/// Counters of recoveries and a window of recent recovery times (ms).
pub struct RecoveryTelemetry {
    pub total_recoveries: u64,
    pub failed_recoveries: u64,
    pub circuit_trips: u64,
    pub recovery_times: VecDeque<u64>,
}

impl RecoveryTelemetry {
    pub open spec fn wf(&self) -> bool {
        self.recovery_times@.len() <= HISTORY_LIMIT
    }

    /// All counters zero, no times recorded.
    pub fn new() -> (r: RecoveryTelemetry)
        ensures
            r.wf(),
            r.total_recoveries == 0,
            r.failed_recoveries == 0,
            r.circuit_trips == 0,
            r.recovery_times@.len() == 0,
    {
        RecoveryTelemetry {
            total_recoveries: 0,
            failed_recoveries: 0,
            circuit_trips: 0,
            recovery_times: VecDeque::new(),
        }
    }

    /// Count one recovery, successful or not, and record how long it took.
    pub fn record_recovery(&mut self, duration_ms: u64, success: bool)
        requires
            old(self).wf(),
        ensures
            final(self).wf(),
            final(self).total_recoveries == if success {
                bump(old(self).total_recoveries)
            } else {
                old(self).total_recoveries
            },
            final(self).failed_recoveries == if success {
                old(self).failed_recoveries
            } else {
                bump(old(self).failed_recoveries)
            },
            final(self).circuit_trips == old(self).circuit_trips,
            final(self).recovery_times@ == bounded_push(old(self).recovery_times@, duration_ms),
    {
        if success {
            self.total_recoveries = bump_counter(self.total_recoveries);
        } else {
            self.failed_recoveries = bump_counter(self.failed_recoveries);
        }
        let ghost before = self.recovery_times@;
        self.recovery_times.push_back(duration_ms);
        if self.recovery_times.len() > HISTORY_LIMIT {
            let _ = self.recovery_times.pop_front();
            assert(self.recovery_times@ =~= before.push(duration_ms).subrange(1, before.len() as int + 1));
        }
    }

    /// Count one trip of a circuit breaker.
    pub fn record_circuit_trip(&mut self)
        requires
            old(self).wf(),
        ensures
            final(self).wf(),
            final(self).circuit_trips == bump(old(self).circuit_trips),
            final(self).total_recoveries == old(self).total_recoveries,
            final(self).failed_recoveries == old(self).failed_recoveries,
            final(self).recovery_times@ == old(self).recovery_times@,
    {
        self.circuit_trips = bump_counter(self.circuit_trips);
    }

    /// The counters, and the mean recorded recovery time.
    pub fn get_stats(&self) -> (r: RecoveryStats)
        requires
            self.wf(),
        ensures
            r.total_recoveries == self.total_recoveries,
            r.failed_recoveries == self.failed_recoveries,
            r.circuit_trips == self.circuit_trips,
            self.recovery_times@.len() == 0 ==> r.avg_recovery_time_ms.is_none(),
            self.recovery_times@.len() > 0 ==> r.avg_recovery_time_ms == Some(
                (total_of(self.recovery_times@) / self.recovery_times@.len() as int) as u64,
            ),
    {
        let n = self.recovery_times.len();
        let avg = if n == 0 {
            None
        } else {
            let mut sum: u128 = 0;
            let mut i: usize = 0;
            while i < n
                invariant
                    n == self.recovery_times@.len(),
                    n <= HISTORY_LIMIT,
                    i <= n,
                    sum as int == total_of(self.recovery_times@.take(i as int)),
                    sum <= i as u128 * 0xffff_ffff_ffff_ffff_u128,
                decreases n - i,
            {
                proof {
                    assert(self.recovery_times@.take(i as int + 1).drop_last() =~= self.recovery_times@.take(i as int));
                }
                sum = sum + self.recovery_times[i] as u128;
                i = i + 1;
            }
            assert(self.recovery_times@.take(n as int) =~= self.recovery_times@);
            let q: u128 = sum / n as u128;
            assert(q <= 0xffff_ffff_ffff_ffff_u128) by (nonlinear_arith)
                requires
                    q == sum / n as u128,
                    sum <= n as u128 * 0xffff_ffff_ffff_ffff_u128,
                    n >= 1,
            ;
            Some(q as u64)
        };
        RecoveryStats {
            total_recoveries: self.total_recoveries,
            failed_recoveries: self.failed_recoveries,
            circuit_trips: self.circuit_trips,
            avg_recovery_time_ms: avg,
        }
    }
}

/// A failure pattern reduced to plain values.
pub open spec fn pattern_view(p: FailurePattern) -> (u64, Seq<char>, Seq<char>) {
    (p.timestamp_ms, p.error_type@, p.stream_name@)
}

/// The error kinds recorded for `name`, oldest first.
pub open spec fn kinds_for(h: Seq<(u64, Seq<char>, Seq<char>)>, name: Seq<char>) -> Seq<Seq<char>>
    decreases h.len(),
{
    if h.len() == 0 {
        Seq::empty()
    } else {
        let rest = kinds_for(h.drop_last(), name);
        if h.last().2 == name {
            rest.push(h.last().1)
        } else {
            rest
        }
    }
}

/// The failures recorded less than `window` ms before `now`, oldest first.
pub open spec fn recent_in(h: Seq<(u64, Seq<char>, Seq<char>)>, window: u64, now: u64) -> Seq<
    (u64, Seq<char>, Seq<char>),
>
    decreases h.len(),
{
    if h.len() == 0 {
        Seq::empty()
    } else {
        let rest = recent_in(h.drop_last(), window, now);
        if h.last().0 + window > now {
            rest.push(h.last())
        } else {
            rest
        }
    }
}

/// Every breaker of the map is well formed.
pub open spec fn breakers_wf(m: Map<Seq<char>, CircuitBreaker>) -> bool {
    forall|k: Seq<char>| #[trigger] m.contains_key(k) ==> m[k].wf()
}

pub struct RecoveryManager {
    policies: DashMap<String, RecoveryPolicy>,
    circuit_breakers: DashMap<String, CircuitBreaker>,
    retry_configs: DashMap<String, RetryConfig>,
    failure_history: VecDeque<FailurePattern>,
    telemetry: RecoveryTelemetry,
}

impl RecoveryManager {
    pub closed spec fn policies(&self) -> Map<Seq<char>, RecoveryPolicy> {
        policy_entries(self.policies)
    }

    pub closed spec fn breakers(&self) -> Map<Seq<char>, CircuitBreaker> {
        breaker_entries(self.circuit_breakers)
    }

    pub closed spec fn retry_configs(&self) -> Map<Seq<char>, RetryConfig> {
        config_entries(self.retry_configs)
    }

    /// The failure history as plain values, oldest first.
    pub closed spec fn history(&self) -> Seq<(u64, Seq<char>, Seq<char>)> {
        self.failure_history@.map_values(|p: FailurePattern| pattern_view(p))
    }

    pub closed spec fn stats(&self) -> (u64, u64, u64) {
        (self.telemetry.total_recoveries, self.telemetry.failed_recoveries, self.telemetry.circuit_trips)
    }

    pub closed spec fn recovery_times(&self) -> Seq<u64> {
        self.telemetry.recovery_times@
    }

    pub closed spec fn wf(&self) -> bool {
        &&& self.failure_history@.len() <= HISTORY_LIMIT
        &&& self.telemetry.wf()
        &&& breakers_wf(self.breakers())
    }

    /// The policy of a stream; Exponential unless one was set.
    pub open spec fn policy_of(&self, name: Seq<char>) -> RecoveryPolicy {
        if self.policies().contains_key(name) {
            self.policies()[name]
        } else {
            RecoveryPolicy::Exponential
        }
    }

    /// The retry settings of a stream; the defaults unless some were set.
    pub open spec fn config_of(&self, name: Seq<char>) -> RetryConfig {
        if self.retry_configs().contains_key(name) {
            self.retry_configs()[name]
        } else {
            RetryConfig::spec_default()
        }
    }

    /// Whether recovery may proceed for `name` at `now`.
    pub open spec fn spec_allowed(&self, name: Seq<char>, now: u64) -> bool {
        !self.breakers().contains_key(name) || allows(self.breakers()[name], now)
    }

    /// History and recovery-time window never hold more than the limit.
    pub proof fn lemma_history_bounded(&self)
        requires
            self.wf(),
        ensures
            self.history().len() <= HISTORY_LIMIT,
            self.recovery_times().len() <= HISTORY_LIMIT,
    {
    }

    /// No policies, settings or breakers; empty history; zero telemetry.
    pub fn new() -> (r: RecoveryManager)
        ensures
            r.wf(),
            r.policies() == Map::<Seq<char>, RecoveryPolicy>::empty(),
            r.breakers() == Map::<Seq<char>, CircuitBreaker>::empty(),
            r.retry_configs() == Map::<Seq<char>, RetryConfig>::empty(),
            r.history() == Seq::<(u64, Seq<char>, Seq<char>)>::empty(),
            r.stats() == (0u64, 0u64, 0u64),
            r.recovery_times() == Seq::<u64>::empty(),
    {
        let r = RecoveryManager {
            policies: new_policy_map(),
            circuit_breakers: new_breaker_map(),
            retry_configs: new_config_map(),
            failure_history: VecDeque::new(),
            telemetry: RecoveryTelemetry::new(),
        };
        assert(r.history() =~= Seq::<(u64, Seq<char>, Seq<char>)>::empty());
        assert(r.recovery_times() =~= Seq::<u64>::empty());
        r
    }

    /// Use `policy` for `stream_name` from now on.
    pub fn set_policy(&mut self, stream_name: String, policy: RecoveryPolicy)
        requires
            old(self).wf(),
        ensures
            final(self).wf(),
            final(self).policies() == old(self).policies().insert(stream_name@, policy),
            final(self).breakers() == old(self).breakers(),
            final(self).retry_configs() == old(self).retry_configs(),
            final(self).history() == old(self).history(),
            final(self).stats() == old(self).stats(),
    {
        policy_map_insert(&mut self.policies, stream_name.as_str(), policy);
    }

    /// Use `config` for `stream_name` from now on.
    pub fn set_retry_config(&mut self, stream_name: String, config: RetryConfig)
        requires
            old(self).wf(),
        ensures
            final(self).wf(),
            final(self).retry_configs() == old(self).retry_configs().insert(stream_name@, config),
            final(self).policies() == old(self).policies(),
            final(self).breakers() == old(self).breakers(),
            final(self).history() == old(self).history(),
            final(self).stats() == old(self).stats(),
    {
        config_map_insert(&mut self.retry_configs, stream_name.as_str(), config);
    }

    /// Guard `stream_name` with a fresh breaker of `config`.
    pub fn enable_circuit_breaker(&mut self, stream_name: String, config: CircuitBreakerConfig)
        requires
            old(self).wf(),
        ensures
            final(self).wf(),
            final(self).breakers() == old(self).breakers().insert(
                stream_name@,
                CircuitBreaker::spec_new(config),
            ),
            final(self).policies() == old(self).policies(),
            final(self).retry_configs() == old(self).retry_configs(),
            final(self).history() == old(self).history(),
            final(self).stats() == old(self).stats(),
    {
        let b = CircuitBreaker::new(config);
        breaker_map_insert(&mut self.circuit_breakers, stream_name.as_str(), b);
    }

    /// Whether the stream's breaker (if any) lets recovery through at
    /// `now_ms`; an open breaker whose timeout ran out becomes half-open.
    pub fn should_attempt_recovery(&mut self, stream_name: &str, now_ms: u64) -> (r: bool)
        requires
            old(self).wf(),
        ensures
            final(self).wf(),
            r == old(self).spec_allowed(stream_name@, now_ms),
            old(self).breakers().contains_key(stream_name@) ==> final(self).breakers()
                == old(self).breakers().insert(
                stream_name@,
                after_query(old(self).breakers()[stream_name@], now_ms),
            ),
            !old(self).breakers().contains_key(stream_name@) ==> final(self).breakers() == old(
                self,
            ).breakers(),
            final(self).policies() == old(self).policies(),
            final(self).retry_configs() == old(self).retry_configs(),
            final(self).history() == old(self).history(),
            final(self).stats() == old(self).stats(),
            final(self).recovery_times() == old(self).recovery_times(),
    {
        match breaker_map_get(&self.circuit_breakers, stream_name) {
            Some(b) => {
                let mut b = b;
                let allowed = b.should_allow_request(now_ms);
                breaker_map_insert(&mut self.circuit_breakers, stream_name, b);
                allowed
            },
            None => true,
        }
    }

    /// Record a failure of `stream_name` at `now_ms` in the history,
    /// dropping the oldest entry beyond the limit.
    pub fn record_failure(&mut self, stream_name: &str, error: &DslError, now_ms: u64)
        requires
            old(self).wf(),
        ensures
            final(self).wf(),
            final(self).history() == bounded_push(
                old(self).history(),
                (now_ms, kind_name(*error), stream_name@),
            ),
            final(self).policies() == old(self).policies(),
            final(self).breakers() == old(self).breakers(),
            final(self).retry_configs() == old(self).retry_configs(),
            final(self).stats() == old(self).stats(),
            final(self).recovery_times() == old(self).recovery_times(),
    {
        let pattern = FailurePattern {
            timestamp_ms: now_ms,
            error_type: error.kind(),
            stream_name: String::from_str(stream_name),
        };
        let ghost before = self.failure_history@;
        self.failure_history.push_back(pattern);
        proof {
            assert(self.history() =~= old(self).history().push((now_ms, kind_name(*error), stream_name@)));
        }
        if self.failure_history.len() > HISTORY_LIMIT {
            let _ = self.failure_history.pop_front();
            proof {
                let t = old(self).history().push((now_ms, kind_name(*error), stream_name@));
                assert(self.history() =~= t.subrange(1, t.len() as int));
            }
        }
    }

    /// The policy and retry settings that apply to `stream_name`.
    fn policy_and_config(&self, stream_name: &str) -> (r: (RecoveryPolicy, RetryConfig))
        requires
            self.wf(),
        ensures
            r.0 == self.policy_of(stream_name@),
            r.1 == self.config_of(stream_name@),
    {
        let policy = match policy_map_get(&self.policies, stream_name) {
            Some(p) => p,
            None => RecoveryPolicy::Exponential,
        };
        let config = match config_map_get(&self.retry_configs, stream_name) {
            Some(c) => c,
            None => RetryConfig::default(),
        };
        (policy, config)
    }

    /// Decide how to recover `stream_name` from `error` at a zero-based
    /// attempt, at time `now_ms`; `jitter_sample` is a random number for the
    /// backoff jitter. The caller waits `delay_ms` before acting.
    ///
    /// A breaker that refuses the request gives Escalate at once and nothing
    /// is recorded. Otherwise the failure enters the history, the stream's
    /// policy decides, the breaker sees a success for Retry, Ignore and
    /// Restart and a failure for the rest, and the telemetry counts the
    /// outcome and records the delay as the recovery's duration.
    pub fn execute_recovery(
        &mut self,
        stream_name: &str,
        error: &DslError,
        attempt: u32,
        now_ms: u64,
        jitter_sample: u32,
    ) -> (r: DslResult<RecoveryDecision>)
        requires
            old(self).wf(),
        ensures
            final(self).wf(),
            r.is_ok(),
            final(self).policies() == old(self).policies(),
            final(self).retry_configs() == old(self).retry_configs(),
            !old(self).spec_allowed(stream_name@, now_ms) ==> {
                &&& r == Ok::<RecoveryDecision, DslError>(
                    RecoveryDecision { action: RecoveryAction::Escalate, delay_ms: 0 },
                )
                &&& final(self).history() == old(self).history()
                &&& final(self).stats() == old(self).stats()
                &&& final(self).recovery_times() == old(self).recovery_times()
                &&& final(self).breakers() == old(self).breakers()
            },
            old(self).spec_allowed(stream_name@, now_ms) ==> {
                let d = policy_decision(
                    old(self).policy_of(stream_name@),
                    old(self).config_of(stream_name@),
                    *error,
                    attempt,
                    jitter_sample,
                );
                let ok = is_success(d.action);
                &&& r == Ok::<RecoveryDecision, DslError>(d)
                &&& final(self).history() == bounded_push(
                    old(self).history(),
                    (now_ms, kind_name(*error), stream_name@),
                )
                &&& final(self).recovery_times() == bounded_push(old(self).recovery_times(), d.delay_ms)
                &&& final(self).stats().0 == if ok {
                    bump(old(self).stats().0)
                } else {
                    old(self).stats().0
                }
                &&& final(self).stats().1 == if ok {
                    old(self).stats().1
                } else {
                    bump(old(self).stats().1)
                }
                &&& (old(self).breakers().contains_key(stream_name@) ==> {
                    let b1 = after_query(old(self).breakers()[stream_name@], now_ms);
                    let b2 = if ok {
                        after_success(b1)
                    } else {
                        after_failure(b1, now_ms)
                    };
                    &&& final(self).breakers() == old(self).breakers().insert(stream_name@, b2)
                    &&& final(self).stats().2 == if !ok && b2.state == CircuitState::Open {
                        bump(old(self).stats().2)
                    } else {
                        old(self).stats().2
                    }
                })
                &&& (!old(self).breakers().contains_key(stream_name@) ==> {
                    &&& final(self).breakers() == old(self).breakers()
                    &&& final(self).stats().2 == old(self).stats().2
                })
            },
    {
        if !self.should_attempt_recovery(stream_name, now_ms) {
            return Ok(RecoveryDecision { action: RecoveryAction::Escalate, delay_ms: 0 });
        }
        self.record_failure(stream_name, error, now_ms);
        let (policy, config) = self.policy_and_config(stream_name);
        let decision = match policy {
            RecoveryPolicy::Immediate => RecoveryDecision { action: RecoveryAction::Retry, delay_ms: 0 },
            RecoveryPolicy::FixedDelay(d) => RecoveryDecision { action: RecoveryAction::Retry, delay_ms: d },
            RecoveryPolicy::Exponential => {
                let delay = calculate_delay(&config, attempt, jitter_sample);
                let action = classify_error(error, attempt, config.max_attempts);
                RecoveryDecision { action, delay_ms: delay }
            },
            RecoveryPolicy::Custom(s) => RecoveryDecision {
                action: s.decide_action(error, attempt),
                delay_ms: s.calculate_delay(attempt),
            },
        };
        let success = action_succeeds(decision.action);
        self.telemetry.record_recovery(decision.delay_ms, success);
        match breaker_map_get(&self.circuit_breakers, stream_name) {
            Some(b) => {
                let mut b = b;
                if success {
                    b.on_success();
                } else {
                    b.on_failure(now_ms);
                    if b.state == CircuitState::Open {
                        self.telemetry.record_circuit_trip();
                    }
                }
                breaker_map_insert(&mut self.circuit_breakers, stream_name, b);
            },
            None => {},
        }
        Ok(decision)
    }

    /// The capped exponential delay of `config` for a zero-based attempt,
    /// with jitter picked by `jitter_sample` when the config asks for it.
    pub fn calculate_exponential_delay(&self, config: &RetryConfig, attempt: u32, jitter_sample: u32) -> (r: u64)
        ensures
            r == retry_delay(*config, attempt as nat, jitter_sample),
    {
        calculate_delay(config, attempt, jitter_sample)
    }

    /// The error kinds recorded for `stream_name`, oldest first.
    pub fn get_failure_patterns(&self, stream_name: &str) -> (r: Vec<String>)
        requires
            self.wf(),
        ensures
            r@.map_values(|s: String| s@) == kinds_for(self.history(), stream_name@),
    {
        let mut r: Vec<String> = Vec::new();
        let mut i: usize = 0;
        let n = self.failure_history.len();
        while i < n
            invariant
                n == self.failure_history@.len(),
                i <= n,
                r@.map_values(|s: String| s@) == kinds_for(self.history().take(i as int), stream_name@),
            decreases n - i,
        {
            let p = &self.failure_history[i];
            proof {
                assert(self.history().take(i as int + 1).drop_last() =~= self.history().take(i as int));
                assert(self.history()[i as int] == pattern_view(*p));
            }
            if crate::text::same_text(p.stream_name.as_str(), stream_name) {
                let k = p.error_type.clone();
                let ghost before = r@;
                r.push(k);
                assert(r@.map_values(|s: String| s@) =~= before.map_values(|s: String| s@).push(k@));
            }
            i = i + 1;
        }
        assert(self.history().take(n as int) =~= self.history());
        r
    }

    /// The failures recorded less than `window_ms` before `now_ms`, oldest
    /// first.
    pub fn get_recent_failures(&self, window_ms: u64, now_ms: u64) -> (r: Vec<FailurePattern>)
        requires
            self.wf(),
        ensures
            r@.map_values(|p: FailurePattern| pattern_view(p)) == recent_in(self.history(), window_ms, now_ms),
    {
        let mut r: Vec<FailurePattern> = Vec::new();
        let mut i: usize = 0;
        let n = self.failure_history.len();
        while i < n
            invariant
                n == self.failure_history@.len(),
                i <= n,
                r@.map_values(|p: FailurePattern| pattern_view(p)) == recent_in(
                    self.history().take(i as int),
                    window_ms,
                    now_ms,
                ),
            decreases n - i,
        {
            let p = &self.failure_history[i];
            proof {
                assert(self.history().take(i as int + 1).drop_last() =~= self.history().take(i as int));
                assert(self.history()[i as int] == pattern_view(*p));
            }
            if p.timestamp_ms as u128 + window_ms as u128 > now_ms as u128 {
                let copy = FailurePattern {
                    timestamp_ms: p.timestamp_ms,
                    error_type: p.error_type.clone(),
                    stream_name: p.stream_name.clone(),
                };
                let ghost before = r@;
                r.push(copy);
                assert(r@.map_values(|q: FailurePattern| pattern_view(q)) =~= before.map_values(
                    |q: FailurePattern| pattern_view(q),
                ).push(pattern_view(*p)));
            }
            i = i + 1;
        }
        assert(self.history().take(n as int) =~= self.history());
        r
    }

    /// Counters and mean recovery time.
    pub fn get_telemetry(&self) -> (r: RecoveryStats)
        requires
            self.wf(),
        ensures
            (r.total_recoveries, r.failed_recoveries, r.circuit_trips) == self.stats(),
            self.recovery_times().len() == 0 ==> r.avg_recovery_time_ms.is_none(),
            self.recovery_times().len() > 0 ==> r.avg_recovery_time_ms == Some(
                (total_of(self.recovery_times()) / self.recovery_times().len() as int) as u64,
            ),
    {
        self.telemetry.get_stats()
    }

    /// Close the stream's breaker (if it has one) and zero its counters.
    pub fn reset_stream_state(&mut self, stream_name: &str)
        requires
            old(self).wf(),
        ensures
            final(self).wf(),
            final(self).breakers().dom() == old(self).breakers().dom(),
            old(self).breakers().contains_key(stream_name@) ==> {
                let b = final(self).breakers()[stream_name@];
                &&& b.state == CircuitState::Closed
                &&& b.failure_count == 0
                &&& b.success_count == 0
                &&& b.config == old(self).breakers()[stream_name@].config
            },
            forall|k: Seq<char>| k != stream_name@ && #[trigger] old(self).breakers().contains_key(k)
                ==> final(self).breakers()[k] == old(self).breakers()[k],
            final(self).policies() == old(self).policies(),
            final(self).history() == old(self).history(),
            final(self).stats() == old(self).stats(),
    {
        match breaker_map_get(&self.circuit_breakers, stream_name) {
            Some(b) => {
                let mut b = b;
                b.reset();
                breaker_map_insert(&mut self.circuit_breakers, stream_name, b);
                assert(self.breakers().dom() =~= old(self).breakers().dom());
            },
            None => {},
        }
    }

    /// The state of the stream's breaker, if it has one.
    pub fn get_circuit_state(&self, stream_name: &str) -> (r: Option<CircuitState>)
        requires
            self.wf(),
        ensures
            r.is_some() == self.breakers().contains_key(stream_name@),
            r.is_some() ==> r.unwrap() == self.breakers()[stream_name@].state,
    {
        match breaker_map_get(&self.circuit_breakers, stream_name) {
            Some(b) => Some(b.state),
            None => None,
        }
    }
}

/// Once a stream's attempt number reaches its retry budget, the default
/// policy escalates, whatever the error.
pub proof fn lemma_budget_exhausted_escalates(
    config: RetryConfig,
    error: DslError,
    attempt: u32,
    sample: u32,
)
    requires
        attempt >= config.max_attempts,
    ensures
        policy_decision(RecoveryPolicy::Exponential, config, error, attempt, sample).action
            == RecoveryAction::Escalate,
{
}

} // verus!
