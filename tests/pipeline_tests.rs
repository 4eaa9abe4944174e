use dsl_rs::error::DslError;
use dsl_rs::health::{AlertSeverity, HealthMonitor, MonitorConfig};
use dsl_rs::sources::rtsp_handle_error;
use dsl_rs::model::{PipelineConfig, RecoveryAction, StreamMetrics, StreamState};
use dsl_rs::pipeline::{element_belongs_to, BusEvent, BusReaction, RobustPipeline};
use dsl_rs::stream::{compose_stream_id, sink_key, StreamConfig, StreamManager};

fn config(max_streams: usize, watchdog_ms: u64) -> PipelineConfig {
    let mut c = PipelineConfig::default();
    c.max_streams = max_streams;
    c.watchdog_timeout_ms = watchdog_ms;
    c
}

fn manager(max_streams: usize) -> StreamManager {
    StreamManager::new(RobustPipeline::new(config(max_streams, 1000)).unwrap())
}

fn named(name: &str) -> StreamConfig {
    let mut c = StreamConfig::default();
    c.name = name.to_string();
    c
}

#[test]
fn test_pipeline_creation() {
    let config = PipelineConfig::default();
    let pipeline = RobustPipeline::new(config);
    assert!(pipeline.is_ok());
}

#[test]
fn pipeline_config_defaults() {
    let c = PipelineConfig::default();
    assert_eq!(c.name, "dsl-pipeline");
    assert!(c.enable_watchdog);
    assert_eq!(c.watchdog_timeout_ms, 10_000);
    assert_eq!(c.max_streams, 32);
    assert_eq!(c.metrics_interval_ms, 1000);
}

#[test]
fn clean_lifecycle_scenario() {
    let mut m = manager(4);
    let id = m.add_source(&named("s1"), 0).unwrap();
    assert!(id.starts_with("s1_"));
    assert_eq!(id.len(), "s1_".len() + 36);
    assert_eq!(m.get_stream_state(&id), Some(StreamState::Starting));
    m.source_connected(&id).unwrap();
    assert_eq!(m.get_stream_state(&id), Some(StreamState::Running));
    let before = m.list_streams().len();
    m.remove_source(&id).unwrap();
    assert_eq!(m.list_streams().len(), before - 1);
    assert_eq!(m.pipeline_ref().get_stream_state(&id), StreamState::Stopped);
    assert_eq!(m.get_stream_state(&id), None);
}

#[test]
fn stream_ids_are_unique() {
    let mut m = manager(4);
    let a = m.add_source(&named("cam"), 0).unwrap();
    let b = m.add_source(&named("cam"), 0).unwrap();
    assert_ne!(a, b);
    assert_eq!(m.list_streams().len(), 2);
}

#[test]
fn capacity_boundary() {
    let n = 3;
    let mut m = manager(n);
    for i in 0..n {
        assert!(m.add_source(&named(&format!("stream_{}", i)), 0).is_ok());
    }
    let extra = m.add_source(&named("extra_stream"), 0);
    assert!(matches!(extra, Err(DslError::ResourceExhaustion(_))));
    let first = m.list_streams()[0].clone();
    m.remove_source(&first).unwrap();
    assert!(m.add_source(&named("replacement"), 0).is_ok());
}

#[test]
fn add_then_remove_restores_the_map() {
    let mut m = manager(8);
    m.add_source(&named("a"), 0).unwrap();
    m.add_source(&named("b"), 0).unwrap();
    let mut before = m.list_streams();
    before.sort();
    let id = m.add_source(&named("c"), 5).unwrap();
    m.remove_source(&id).unwrap();
    let mut after = m.list_streams();
    after.sort();
    assert_eq!(before, after);
}

#[test]
fn unknown_stream_errors() {
    let mut m = manager(2);
    assert!(matches!(m.remove_source("nope"), Err(DslError::Stream(_))));
    assert!(matches!(m.add_sink("nope", "sink"), Err(DslError::Stream(_))));
    assert!(matches!(m.pause_stream("nope"), Err(DslError::Stream(_))));
    assert!(matches!(m.handle_stream_error("nope", DslError::Other("x".to_string()), RecoveryAction::Retry), Err(DslError::Stream(_))));
}

#[test]
fn pause_then_resume_returns_to_running() {
    let mut m = manager(2);
    let id = m.add_source(&named("p"), 0).unwrap();
    assert!(matches!(m.pause_stream(&id), Err(DslError::StateTransition(_))));
    m.source_connected(&id).unwrap();
    m.pause_stream(&id).unwrap();
    assert_eq!(m.get_stream_state(&id), Some(StreamState::Paused));
    m.resume_stream(&id).unwrap();
    assert_eq!(m.get_stream_state(&id), Some(StreamState::Running));
    assert!(matches!(m.resume_stream(&id), Err(DslError::StateTransition(_))));
}

#[test]
fn pipeline_pause_and_resume_all() {
    let mut p = RobustPipeline::new(config(4, 1000)).unwrap();
    p.add_stream("a", 0).unwrap();
    p.add_stream("b", 0).unwrap();
    p.transition_stream("a", dsl_rs::state_machine::TransitionCondition::OnSuccess).unwrap();
    p.pause().unwrap();
    assert_eq!(p.get_stream_state("a"), StreamState::Paused);
    assert_eq!(p.get_stream_state("b"), StreamState::Starting);
    p.resume().unwrap();
    assert_eq!(p.get_stream_state("a"), StreamState::Running);
    p.stop().unwrap();
    assert_eq!(p.get_stream_state("a"), StreamState::Stopped);
    assert_eq!(p.get_stream_health("b").unwrap().state, StreamState::Stopped);
}

#[test]
fn sinks_are_keyed_by_stream_and_name() {
    let mut m = manager(2);
    let id = m.add_source(&named("s"), 0).unwrap();
    let key = m.add_sink(&id, "rec").unwrap();
    assert_eq!(key, format!("{}:rec", id));
    assert_eq!(sink_key("a", "b"), "a:b");
    assert!(m.remove_sink(&key).is_ok());
    assert_eq!(compose_stream_id("x", "1234"), "x_1234");
}

#[test]
fn duplicate_stream_name_is_refused() {
    let mut p = RobustPipeline::new(config(4, 1000)).unwrap();
    p.add_stream("a", 0).unwrap();
    assert!(matches!(p.add_stream("a", 0), Err(DslError::Pipeline(_))));
    assert_eq!(p.stream_count(), 1);
}

#[test]
fn watchdog_trip_scenario() {
    let mut p = RobustPipeline::new(config(4, 1000)).unwrap();
    p.add_stream("cam", 0).unwrap();
    p.transition_stream("cam", dsl_rs::state_machine::TransitionCondition::OnSuccess).unwrap();
    p.feed("cam", 0);
    assert!(p.watchdog_tick(900).is_empty());
    assert_eq!(p.get_stream_state("cam"), StreamState::Running);
    let alerts = p.watchdog_tick(1200);
    assert_eq!(alerts.len(), 1);
    assert_eq!(alerts[0].severity, AlertSeverity::Critical);
    assert_eq!(alerts[0].stream.as_deref(), Some("cam"));
    assert_eq!(p.get_stream_state("cam"), StreamState::Recovering);
    assert_eq!(p.get_stream_health("cam").unwrap().consecutive_errors, 1);
}

#[test]
fn watchdog_spares_fresh_streams() {
    let mut p = RobustPipeline::new(config(4, 1000)).unwrap();
    p.add_stream("fresh", 0).unwrap();
    p.add_stream("stale", 0).unwrap();
    p.feed("fresh", 1500);
    let alerts = p.watchdog_tick(2000);
    assert_eq!(alerts.len(), 1);
    assert_eq!(alerts[0].stream.as_deref(), Some("stale"));
    assert_eq!(p.get_stream_health("fresh").unwrap().consecutive_errors, 0);
    // exactly at the timeout is still within it
    assert!(p.watchdog_tick(2500).iter().all(|a| a.stream.as_deref() != Some("fresh")));
}

#[test]
fn feeding_never_moves_the_clock_back() {
    let mut p = RobustPipeline::new(config(4, 1000)).unwrap();
    p.add_stream("s", 100).unwrap();
    assert!(p.feed("s", 5000));
    assert_eq!(p.last_activity("s"), Some(5000));
    assert!(p.feed("s", 4000));
    assert_eq!(p.last_activity("s"), Some(5000));
    assert!(!p.feed("missing", 1));
    assert!(p.update_stream_metrics("s", StreamMetrics::default(), 6000));
    assert_eq!(p.last_activity("s"), Some(6000));
}

#[test]
fn disabled_watchdog_changes_nothing() {
    let mut c = config(4, 10);
    c.enable_watchdog = false;
    let mut p = RobustPipeline::new(c).unwrap();
    p.add_stream("s", 0).unwrap();
    assert!(p.watchdog_tick(100_000).is_empty());
    assert_eq!(p.get_stream_health("s").unwrap().consecutive_errors, 0);
}

#[test]
fn trigger_recovery_needs_recovering() {
    let mut p = RobustPipeline::new(config(4, 1000)).unwrap();
    p.add_stream("s", 0).unwrap();
    assert!(matches!(p.trigger_recovery("s"), Err(DslError::StateTransition(_))));
    p.transition_stream("s", dsl_rs::state_machine::TransitionCondition::OnSuccess).unwrap();
    p.transition_stream("s", dsl_rs::state_machine::TransitionCondition::OnError).unwrap();
    p.trigger_recovery("s").unwrap();
    assert_eq!(p.get_stream_state("s"), StreamState::Running);
    assert_eq!(p.get_stream_health("s").unwrap().recovery_attempts, 1);
}

#[test]
fn stream_errors_recover_then_fail() {
    let mut m = manager(2);
    let id = m.add_source(&named("e"), 0).unwrap();
    m.source_connected(&id).unwrap();
    let r = m.handle_stream_error(&id, DslError::Network("drop".to_string()), RecoveryAction::Retry);
    assert_eq!(r, Ok(RecoveryAction::Retry));
    assert_eq!(m.get_stream_state(&id), Some(StreamState::Recovering));
    m.reconnect_finished(&id, true).unwrap();
    assert_eq!(m.get_stream_state(&id), Some(StreamState::Running));
    for _ in 0..3 {
        m.handle_stream_error(&id, DslError::Network("drop".to_string()), RecoveryAction::Retry).unwrap();
        m.reconnect_finished(&id, true).unwrap();
    }
    let r = m.handle_stream_error(&id, DslError::Network("drop".to_string()), RecoveryAction::Retry);
    assert!(matches!(r, Err(DslError::RecoveryFailed(_))));
    assert_eq!(m.get_stream_state(&id), Some(StreamState::Failed));
    assert_eq!(m.get_stream_health(&id).unwrap().consecutive_errors, 5);
}

#[test]
fn failed_connect_fails_the_stream() {
    let mut m = manager(2);
    let id = m.add_source(&named("f"), 0).unwrap();
    m.source_failed(&id).unwrap();
    assert_eq!(m.get_stream_state(&id), Some(StreamState::Failed));
    assert!(matches!(m.source_connected(&id), Err(DslError::StateTransition(_))));
}

#[test]
fn bus_errors_mark_the_owning_stream() {
    let mut p = RobustPipeline::new(config(4, 1000)).unwrap();
    p.add_stream("cam_1", 0).unwrap();
    p.transition_stream("cam_1", dsl_rs::state_machine::TransitionCondition::OnSuccess).unwrap();
    let r = p.handle_bus_event(BusEvent::Error { element: "cam_1_queue_in".to_string(), message: "boom".to_string() }, 10);
    assert!(matches!(r, BusReaction::Recover(ref id) if id == "cam_1"));
    assert_eq!(p.get_stream_state("cam_1"), StreamState::Recovering);
    assert_eq!(p.get_stream_health("cam_1").unwrap().last_error, Some(DslError::GStreamer("boom".to_string())));
    let r = p.handle_bus_event(BusEvent::Error { element: "other".to_string(), message: "x".to_string() }, 10);
    assert!(matches!(r, BusReaction::Unowned));
    let r = p.handle_bus_event(BusEvent::StreamStatus { element: "cam_1".to_string() }, 700);
    assert!(matches!(r, BusReaction::Fed(Some(_))));
    assert_eq!(p.last_activity("cam_1"), Some(700));
    assert!(matches!(p.handle_bus_event(BusEvent::Warning { element: "cam_1".to_string(), message: "w".to_string() }, 0), BusReaction::Log));
    assert!(element_belongs_to("cam_1", "cam_1_queue_out"));
    assert!(!element_belongs_to("cam_1", "cam_12"));
    assert!(!element_belongs_to("cam_1", "cam"));
}

#[test]
fn start_and_stop_follow_the_configuration() {
    let mut p = RobustPipeline::new(config(4, 1000)).unwrap();
    assert!(p.start().is_ok());
    assert!(p.stop().is_ok());
    assert!(p.get_all_stream_names().is_empty());
}

#[test]
fn watchdog_alert_reaches_the_event_log() {
    let mut p = RobustPipeline::new(config(4, 1000)).unwrap();
    let mut monitor = HealthMonitor::new(MonitorConfig::default(), 0);
    p.add_stream("cam", 0).unwrap();
    p.transition_stream("cam", dsl_rs::state_machine::TransitionCondition::OnSuccess).unwrap();
    for alert in p.watchdog_tick(1200) {
        monitor.log_event(alert);
    }
    let logged = monitor.get_recent_alerts(1);
    assert_eq!(logged.len(), 1);
    assert_eq!(logged[0].severity, AlertSeverity::Critical);
    assert_eq!(logged[0].timestamp_ms, 1200);
    assert_eq!(p.get_stream_state("cam"), StreamState::Recovering);
}

#[test]
fn network_404_removes_the_stream() {
    let mut m = manager(2);
    let id = m.add_source(&named("net"), 0).unwrap();
    m.source_connected(&id).unwrap();
    let error = DslError::Network("404 Not Found".to_string());
    let action = rtsp_handle_error(&error, false, true);
    assert_eq!(action, RecoveryAction::Remove);
    let before = m.list_streams().len();
    assert_eq!(m.handle_stream_error(&id, error.clone(), action), Ok(RecoveryAction::Remove));
    assert_eq!(m.list_streams().len(), before - 1);
    assert_eq!(m.get_stream_state(&id), None);
    assert_eq!(m.pipeline_ref().get_stream_state(&id), StreamState::Stopped);
    assert!(matches!(m.handle_stream_error(&id, error, RecoveryAction::Retry), Err(DslError::Stream(_))));
    assert!(matches!(m.pipeline_mut().trigger_recovery(&id), Err(DslError::StateTransition(_))));
}

#[test]
fn test_pipeline_configuration_matrix() {
    let mut minimal = PipelineConfig::default();
    minimal.enable_watchdog = false;
    minimal.max_streams = 1;
    minimal.enable_metrics = false;
    let mut standard = PipelineConfig::default();
    standard.watchdog_timeout_ms = 60_000;
    standard.max_streams = 10;
    let mut maximum = PipelineConfig::default();
    maximum.watchdog_timeout_ms = 300_000;
    maximum.max_streams = 100;
    for config in [minimal, standard, maximum] {
        let result = RobustPipeline::new(config.clone());
        assert!(result.is_ok(), "Pipeline creation failed for config: {:?}", config);
        assert_eq!(result.unwrap().config().max_streams, config.max_streams);
    }
}

#[test]
fn preferred_actions_are_applied() {
    let mut m = manager(2);
    let id = m.add_source(&named("p"), 0).unwrap();
    m.source_connected(&id).unwrap();
    let e = DslError::Network("blip".to_string());
    assert_eq!(m.handle_stream_error(&id, e.clone(), RecoveryAction::Ignore), Ok(RecoveryAction::Ignore));
    assert_eq!(m.get_stream_state(&id), Some(StreamState::Running));
    assert_eq!(m.get_stream_health(&id).unwrap().consecutive_errors, 1);
    assert_eq!(m.handle_stream_error(&id, e.clone(), RecoveryAction::Restart), Ok(RecoveryAction::Restart));
    assert_eq!(m.get_stream_state(&id), Some(StreamState::Recovering));
    m.reconnect_finished(&id, false).unwrap();
    assert_eq!(m.get_stream_state(&id), Some(StreamState::Failed));
    let id2 = m.add_source(&named("q"), 0).unwrap();
    m.source_connected(&id2).unwrap();
    assert!(matches!(m.handle_stream_error(&id2, e, RecoveryAction::Escalate), Err(DslError::RecoveryFailed(_))));
    assert_eq!(m.get_stream_state(&id2), Some(StreamState::Failed));
}

#[test]
fn bus_messages_get_their_reactions() {
    let mut p = RobustPipeline::new(config(4, 1000)).unwrap();
    p.add_stream("s", 0).unwrap();
    assert!(matches!(p.handle_bus_event(BusEvent::StateChanged { element: "s".to_string() }, 0), BusReaction::Nothing));
    assert!(matches!(p.handle_bus_event(BusEvent::Eos { element: "s_filesrc".to_string() }, 0), BusReaction::EndOfStream(Some(ref id)) if id == "s"));
    assert!(matches!(p.handle_bus_event(BusEvent::Eos { element: "x".to_string() }, 0), BusReaction::EndOfStream(None)));
    assert!(matches!(p.handle_bus_event(BusEvent::StreamStatus { element: "x".to_string() }, 0), BusReaction::Fed(None)));
}
