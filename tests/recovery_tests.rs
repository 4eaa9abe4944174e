use dsl_rs::backoff::{calculate_delay, exponential_delay};
use dsl_rs::circuit::{CircuitBreaker, CircuitBreakerConfig, CircuitState};
use dsl_rs::classify::classify_error;
use dsl_rs::error::DslError;
use dsl_rs::model::{RecoveryAction, RetryConfig};
use dsl_rs::recovery::{DefaultRecoveryStrategy, RecoveryDecision, RecoveryManager, RecoveryPolicy, RecoveryStrategy};

fn no_jitter(initial: u64, max: u64, base: u64, attempts: u32) -> RetryConfig {
    RetryConfig { max_attempts: attempts, initial_delay_ms: initial, max_delay_ms: max, exponential_base: base, jitter: false }
}

#[test]
fn test_circuit_breaker_state_transitions() {
    let config = CircuitBreakerConfig { failure_threshold: 2, success_threshold: 2, timeout_ms: 100, half_open_attempts: 3 };

    let mut breaker = CircuitBreaker::new(config);
    assert_eq!(breaker.state, CircuitState::Closed);

    breaker.on_failure(0);
    assert_eq!(breaker.state, CircuitState::Closed);
    breaker.on_failure(0);
    assert_eq!(breaker.state, CircuitState::Open);

    // 150 ms later
    assert!(breaker.should_allow_request(150));
    assert_eq!(breaker.state, CircuitState::HalfOpen);

    breaker.on_success();
    breaker.on_success();
    assert_eq!(breaker.state, CircuitState::Closed);
}

#[test]
fn test_recovery_manager_policies() {
    let mut manager = RecoveryManager::new();
    manager.set_policy("stream1".to_string(), RecoveryPolicy::Immediate);
    let error = DslError::Network("test error".to_string());
    let decision = manager.execute_recovery("stream1", &error, 0, 0, 0).unwrap();
    assert_eq!(decision.action, RecoveryAction::Retry);
}

#[test]
fn test_exponential_delay_calculation() {
    let manager = RecoveryManager::new();
    let config = no_jitter(100, 10_000, 2, 5);
    assert_eq!(manager.calculate_exponential_delay(&config, 0, 0), 100);
    assert_eq!(manager.calculate_exponential_delay(&config, 1, 0), 200);
    assert_eq!(manager.calculate_exponential_delay(&config, 2, 0), 400);
}

#[test]
fn test_failure_history() {
    let mut manager = RecoveryManager::new();
    manager.record_failure("stream1", &DslError::Network("error1".to_string()), 1);
    manager.record_failure("stream2", &DslError::Network("error2".to_string()), 2);
    manager.record_failure("stream1", &DslError::Network("error3".to_string()), 3);
    let patterns = manager.get_failure_patterns("stream1");
    assert_eq!(patterns.len(), 2);
    assert_eq!(patterns, vec!["Network".to_string(), "Network".to_string()]);
}

#[test]
fn exponential_backoff_scenario() {
    let config = no_jitter(100, 10_000, 2, 10);
    assert_eq!(exponential_delay(&config, 0), 100);
    assert_eq!(exponential_delay(&config, 1), 200);
    assert_eq!(exponential_delay(&config, 2), 400);
    assert_eq!(exponential_delay(&config, 3), 800);
    assert_eq!(exponential_delay(&config, 10), 10_000);
}

#[test]
fn delay_caps_and_handles_huge_attempts() {
    let config = no_jitter(100, 30_000, 2, 10);
    assert_eq!(exponential_delay(&config, 8), 25_600);
    assert_eq!(exponential_delay(&config, 9), 30_000);
    assert_eq!(exponential_delay(&config, 200), 30_000);
    let big = no_jitter(u64::MAX / 2, u64::MAX, 3, 10);
    assert_eq!(exponential_delay(&big, 1), u64::MAX);
    let zero_base = no_jitter(100, 1000, 0, 10);
    assert_eq!(exponential_delay(&zero_base, 0), 100);
    assert_eq!(exponential_delay(&zero_base, 3), 0);
    let initial_over_cap = no_jitter(5000, 1000, 2, 10);
    assert_eq!(exponential_delay(&initial_over_cap, 0), 1000);
}

#[test]
fn jitter_stays_within_twenty_percent() {
    let mut config = no_jitter(1000, 30_000, 2, 10);
    config.jitter = true;
    // sample % 401 picks a factor from 0.8 to 1.2
    assert_eq!(calculate_delay(&config, 0, 0), 800);
    assert_eq!(calculate_delay(&config, 0, 200), 1000);
    assert_eq!(calculate_delay(&config, 0, 400), 1200);
    assert_eq!(calculate_delay(&config, 0, 401), 800);
    for sample in [0u32, 17, 123, 399, 4000, u32::MAX] {
        for attempt in 0..6u32 {
            let d = calculate_delay(&config, attempt, sample);
            let base = exponential_delay(&config, attempt);
            assert!(d * 10 <= base * 12);
            assert!(d * 10 >= base * 8);
        }
    }
}

#[test]
fn circuit_trip_and_reset_scenario() {
    let config = CircuitBreakerConfig { failure_threshold: 2, success_threshold: 2, timeout_ms: 100, half_open_attempts: 3 };
    let mut b = CircuitBreaker::new(config);
    b.on_failure(1000);
    b.on_failure(1010);
    assert_eq!(b.state(), CircuitState::Open);
    assert!(!b.should_allow_request(1010));
    assert!(b.should_allow_request(1160));
    assert_eq!(b.state(), CircuitState::HalfOpen);
    b.on_success();
    assert_eq!(b.state(), CircuitState::HalfOpen);
    b.on_success();
    assert_eq!(b.state(), CircuitState::Closed);
    assert_eq!(b.failure_count, 0);
    assert_eq!(b.success_count, 0);
}

#[test]
fn circuit_opens_at_exactly_the_threshold() {
    let config = CircuitBreakerConfig { failure_threshold: 3, success_threshold: 1, timeout_ms: 500, half_open_attempts: 1 };
    let mut b = CircuitBreaker::new(config);
    for i in 0..2 {
        b.on_failure(i);
        assert_eq!(b.state(), CircuitState::Closed);
        assert!(b.failure_count <= config.failure_threshold);
    }
    b.on_failure(10);
    assert_eq!(b.state(), CircuitState::Open);
    // one millisecond short of the timeout, then exactly at it
    assert!(!b.should_allow_request(509));
    assert_eq!(b.state(), CircuitState::Open);
    assert!(b.should_allow_request(510));
    assert_eq!(b.state(), CircuitState::HalfOpen);
}

#[test]
fn half_open_caps_probes_and_reopens_on_failure() {
    let config = CircuitBreakerConfig { failure_threshold: 1, success_threshold: 5, timeout_ms: 10, half_open_attempts: 2 };
    let mut b = CircuitBreaker::new(config);
    b.on_failure(0);
    assert!(b.should_allow_request(10));
    b.on_success();
    assert!(b.should_allow_request(11));
    b.on_success();
    assert_eq!(b.success_count, 2);
    assert!(!b.should_allow_request(12));
    b.on_failure(13);
    assert_eq!(b.state(), CircuitState::Open);
    assert_eq!(b.failure_count, 0);
    assert_eq!(b.success_count, 0);
}

#[test]
fn success_in_closed_clears_failures() {
    let mut b = CircuitBreaker::new(CircuitBreakerConfig::default());
    b.on_failure(0);
    b.on_failure(1);
    assert_eq!(b.failure_count, 2);
    b.on_success();
    assert_eq!(b.failure_count, 0);
    assert_eq!(b.state(), CircuitState::Closed);
}

#[test]
fn retry_at_budget_escalates() {
    let mut manager = RecoveryManager::new();
    manager.set_retry_config("s".to_string(), no_jitter(10, 100, 2, 3));
    let e = DslError::Network("flap".to_string());
    let d = manager.execute_recovery("s", &e, 2, 0, 0).unwrap();
    assert_eq!(d.action, RecoveryAction::Retry);
    assert_eq!(d.delay_ms, 40);
    let d = manager.execute_recovery("s", &e, 3, 0, 0).unwrap();
    assert_eq!(d.action, RecoveryAction::Escalate);
    let stats = manager.get_telemetry();
    assert_eq!(stats.total_recoveries, 1);
    assert_eq!(stats.failed_recoveries, 1);
}

#[test]
fn open_circuit_fails_fast_until_timeout() {
    let mut manager = RecoveryManager::new();
    manager.set_retry_config("s".to_string(), no_jitter(10, 100, 2, 0));
    manager.enable_circuit_breaker(
        "s".to_string(),
        CircuitBreakerConfig { failure_threshold: 2, success_threshold: 1, timeout_ms: 1000, half_open_attempts: 1 },
    );
    let e = DslError::Network("down".to_string());
    // max_attempts 0: every decision escalates, each counts as a failure
    manager.execute_recovery("s", &e, 0, 0, 0).unwrap();
    manager.execute_recovery("s", &e, 0, 10, 0).unwrap();
    assert_eq!(manager.get_circuit_state("s"), Some(CircuitState::Open));
    assert_eq!(manager.get_telemetry().circuit_trips, 1);
    let before = manager.get_failure_patterns("s").len();
    let d = manager.execute_recovery("s", &e, 0, 500, 0).unwrap();
    assert_eq!(d.action, RecoveryAction::Escalate);
    assert_eq!(manager.get_failure_patterns("s").len(), before);
    assert!(!manager.should_attempt_recovery("s", 1009));
    assert!(manager.should_attempt_recovery("s", 1010));
    assert_eq!(manager.get_circuit_state("s"), Some(CircuitState::HalfOpen));
    manager.reset_stream_state("s");
    assert_eq!(manager.get_circuit_state("s"), Some(CircuitState::Closed));
    assert_eq!(manager.get_circuit_state("unknown"), None);
}

#[test]
fn default_action_matrix() {
    assert_eq!(classify_error(&DslError::Network("timeout".to_string()), 0, 10), RecoveryAction::Retry);
    assert_eq!(classify_error(&DslError::Network("401 Unauthorized".to_string()), 0, 10), RecoveryAction::Replace);
    assert_eq!(classify_error(&DslError::Network("404 Not Found".to_string()), 0, 10), RecoveryAction::Remove);
    assert_eq!(classify_error(&DslError::FileIo("gone".to_string()), 0, 10), RecoveryAction::Retry);
    assert_eq!(classify_error(&DslError::FileIo("gone".to_string()), 1, 10), RecoveryAction::Restart);
    assert_eq!(classify_error(&DslError::Source("End of file reached".to_string()), 0, 10), RecoveryAction::Remove);
    assert_eq!(classify_error(&DslError::Source("decode".to_string()), 0, 10), RecoveryAction::Restart);
    assert_eq!(classify_error(&DslError::Configuration("bad".to_string()), 0, 10), RecoveryAction::Remove);
    assert_eq!(classify_error(&DslError::ResourceExhaustion("oom".to_string()), 0, 10), RecoveryAction::Remove);
    assert_eq!(classify_error(&DslError::Other("?".to_string()), 0, 10), RecoveryAction::Restart);
    assert_eq!(classify_error(&DslError::Network("timeout".to_string()), 10, 10), RecoveryAction::Escalate);
}

#[test]
fn policies_decide_and_delay() {
    let mut manager = RecoveryManager::new();
    manager.set_policy("f".to_string(), RecoveryPolicy::FixedDelay(500));
    manager.set_policy("c".to_string(), RecoveryPolicy::Custom(DefaultRecoveryStrategy::new(2, 50)));
    let e = DslError::Stream("x".to_string());
    let d = manager.execute_recovery("f", &e, 7, 0, 0).unwrap();
    assert_eq!((d.action, d.delay_ms), (RecoveryAction::Retry, 500));
    let d = manager.execute_recovery("c", &e, 1, 0, 0).unwrap();
    assert_eq!((d.action, d.delay_ms), (RecoveryAction::Retry, 50));
    let d = manager.execute_recovery("c", &e, 2, 0, 0).unwrap();
    assert_eq!((d.action, d.delay_ms), (RecoveryAction::Escalate, 100));
    // default policy: exponential with the default settings (jitter on, sample 200 = factor 1.0)
    let d = manager.execute_recovery("other", &e, 1, 0, 200).unwrap();
    assert_eq!((d.action, d.delay_ms), (RecoveryAction::Restart, 200));
    let stats = manager.get_telemetry();
    assert_eq!(stats.total_recoveries, 3);
    assert_eq!(stats.failed_recoveries, 1);
    assert_eq!(stats.avg_recovery_time_ms, Some((500 + 50 + 100 + 200) / 4));
}

#[test]
fn default_strategy_contract() {
    let s = DefaultRecoveryStrategy::new(2, 100);
    let e = DslError::Other("x".to_string());
    assert_eq!(s.decide_action(&e, 1), RecoveryAction::Retry);
    assert_eq!(s.decide_action(&e, 2), RecoveryAction::Escalate);
    assert_eq!(s.calculate_delay(3), 300);
    assert!(s.should_circuit_break(5));
    assert!(!s.should_circuit_break(4));
    assert_eq!(DefaultRecoveryStrategy::new(1, u64::MAX).calculate_delay(2), u64::MAX);
}

#[test]
fn failure_history_keeps_the_newest_thousand() {
    let mut manager = RecoveryManager::new();
    for i in 0..1005u64 {
        let name = if i < 5 { "old" } else { "new" };
        manager.record_failure(name, &DslError::Other("e".to_string()), i);
    }
    assert_eq!(manager.get_failure_patterns("old").len(), 0);
    assert_eq!(manager.get_failure_patterns("new").len(), 1000);
    let recent = manager.get_recent_failures(10, 1004);
    assert_eq!(recent.len(), 10);
    assert_eq!(recent[0].timestamp_ms, 995);
    assert_eq!(recent[9].stream_name, "new");
}

#[test]
fn telemetry_starts_empty() {
    let manager = RecoveryManager::new();
    let stats = manager.get_telemetry();
    assert_eq!(stats.total_recoveries, 0);
    assert_eq!(stats.circuit_trips, 0);
    assert_eq!(stats.avg_recovery_time_ms, None);
}

#[test]
fn only_escalation_surfaces_as_failure() {
    let escalate = RecoveryDecision { action: RecoveryAction::Escalate, delay_ms: 0 };
    assert!(matches!(escalate.outcome(), Err(DslError::RecoveryFailed(_))));
    let retry = RecoveryDecision { action: RecoveryAction::Retry, delay_ms: 10 };
    assert_eq!(retry.outcome(), Ok(RecoveryAction::Retry));
    let remove = RecoveryDecision { action: RecoveryAction::Remove, delay_ms: 0 };
    assert_eq!(remove.outcome(), Ok(RecoveryAction::Remove));
}
