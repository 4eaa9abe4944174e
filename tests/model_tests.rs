use dsl_rs::error::DslError;
use dsl_rs::model::{RecoveryAction, RetryConfig, StreamHealth, StreamMetrics, StreamState};
use dsl_rs::state_machine::{StateMachine, TransitionCondition};
use dsl_rs::stream::{QueueConfig, StreamConfig};
use dsl_rs::version;

#[test]
fn test_stream_state_display() {
    assert_eq!(StreamState::Running.to_string(), "Running");
    assert_eq!(StreamState::Failed.to_string(), "Failed");
}

#[test]
fn test_retry_config_defaults() {
    let config = RetryConfig::default();
    assert_eq!(config.max_attempts, 10);
    assert_eq!(config.initial_delay_ms, 100);
}

#[test]
fn test_stream_health_healthy_check() {
    let mut health = StreamHealth::new();
    assert!(!health.is_healthy());

    health.state = StreamState::Running;
    assert!(health.is_healthy());

    health.consecutive_errors = 5;
    assert!(!health.is_healthy());
}

#[test]
fn test_queue_config_defaults() {
    let config = QueueConfig::default();
    assert_eq!(config.max_size_buffers, 200);
    assert_eq!(config.max_size_bytes, 10 * 1024 * 1024);
    assert!(config.leaky);
}

#[test]
fn test_stream_config_defaults() {
    let config = StreamConfig::default();
    assert_eq!(config.name, "stream");
    assert_eq!(config.buffer_size, 100);
    assert!(config.enable_isolation);
}

#[test]
fn test_state_machine_transitions() {
    let mut sm = StateMachine::new();

    assert_eq!(sm.get_state("test"), StreamState::Idle);

    sm.transition("test", TransitionCondition::OnSuccess);
    assert_eq!(sm.get_state("test"), StreamState::Starting);

    sm.transition("test", TransitionCondition::OnSuccess);
    assert_eq!(sm.get_state("test"), StreamState::Running);

    sm.transition("test", TransitionCondition::OnError);
    assert_eq!(sm.get_state("test"), StreamState::Recovering);
}

#[test]
fn healthy_needs_fewer_than_three_errors() {
    let mut health = StreamHealth::new();
    health.state = StreamState::Paused;
    health.consecutive_errors = 2;
    assert!(health.is_healthy());
    health.consecutive_errors = 3;
    assert!(!health.is_healthy());
    health.consecutive_errors = 0;
    health.state = StreamState::Recovering;
    assert!(!health.is_healthy());
}

#[test]
fn every_state_has_a_display_name() {
    let all = [
        (StreamState::Idle, "Idle"),
        (StreamState::Starting, "Starting"),
        (StreamState::Running, "Running"),
        (StreamState::Paused, "Paused"),
        (StreamState::Recovering, "Recovering"),
        (StreamState::Failed, "Failed"),
        (StreamState::Stopped, "Stopped"),
    ];
    for (s, name) in all {
        assert_eq!(s.to_string(), name);
    }
}

#[test]
fn transition_table_is_exact() {
    assert_eq!(StreamState::Idle.next_state(TransitionCondition::OnSuccess), Some(StreamState::Starting));
    assert_eq!(StreamState::Starting.next_state(TransitionCondition::OnSuccess), Some(StreamState::Running));
    assert_eq!(StreamState::Starting.next_state(TransitionCondition::OnError), Some(StreamState::Failed));
    assert_eq!(StreamState::Running.next_state(TransitionCondition::OnError), Some(StreamState::Recovering));
    assert_eq!(StreamState::Recovering.next_state(TransitionCondition::OnRecovery), Some(StreamState::Running));
    assert_eq!(StreamState::Recovering.next_state(TransitionCondition::OnTimeout), Some(StreamState::Failed));
    assert_eq!(StreamState::Running.next_state(TransitionCondition::OnSuccess), Some(StreamState::Paused));
    assert_eq!(StreamState::Paused.next_state(TransitionCondition::OnSuccess), Some(StreamState::Running));
    for s in [StreamState::Idle, StreamState::Starting, StreamState::Running, StreamState::Paused, StreamState::Recovering, StreamState::Failed, StreamState::Stopped] {
        assert_eq!(s.next_state(TransitionCondition::OnStop), Some(StreamState::Stopped));
    }
    assert_eq!(StreamState::Idle.next_state(TransitionCondition::OnError), None);
    assert_eq!(StreamState::Recovering.next_state(TransitionCondition::OnSuccess), None);
    assert_eq!(StreamState::Failed.next_state(TransitionCondition::OnRecovery), None);
    assert_eq!(StreamState::Stopped.next_state(TransitionCondition::OnSuccess), None);
    assert_eq!(StreamState::Paused.next_state(TransitionCondition::OnError), None);
}

#[test]
fn illegal_transition_leaves_state_table_alone() {
    let mut sm = StateMachine::new();
    assert_eq!(sm.transition("a", TransitionCondition::OnError), None);
    assert_eq!(sm.get_state("a"), StreamState::Idle);
    assert!(!sm.has_entry("a"));
    assert_eq!(sm.transition("a", TransitionCondition::OnSuccess), Some(StreamState::Starting));
    assert!(sm.has_entry("a"));
    sm.reset("a");
    assert_eq!(sm.get_state("a"), StreamState::Idle);
}

#[test]
fn error_messages_name_their_kind() {
    let e = DslError::Network("Test connection error".to_string());
    assert_eq!(e.message(), "Network error: Test connection error");
    assert_eq!(e.kind(), "Network");
    let e = DslError::Pipeline("Pipeline error".to_string());
    assert!(e.message().contains("Pipeline"));
    let e = DslError::StateTransition("Invalid state".to_string());
    assert_eq!(e.message(), "State transition error: Invalid state");
    assert_eq!(DslError::FileIo("x".to_string()).kind(), "FileIo");
    assert_eq!(DslError::GStreamer("g".to_string()).message(), "GStreamer error: g");
}

#[test]
fn metrics_start_at_zero() {
    let m = StreamMetrics::default();
    assert_eq!(m.frames_processed, 0);
    assert_eq!(m.last_frame_time, None);
    let h = StreamHealth::new();
    assert_eq!(h.state, StreamState::Idle);
    assert_eq!(h.recovery_attempts, 0);
    assert!(h.last_error.is_none());
}

#[test]
fn actions_compare_by_variant() {
    assert_eq!(RecoveryAction::Retry, RecoveryAction::Retry);
    assert_ne!(RecoveryAction::Retry, RecoveryAction::Restart);
}

#[test]
fn version_is_reported() {
    assert_eq!(version(), "0.1.0");
}
