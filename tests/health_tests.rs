use dsl_rs::health::{check_stream, AlertSeverity, HealthAlert, HealthMonitor, HealthStatus, MonitorConfig};
use dsl_rs::model::{StreamHealth, StreamState};

fn running() -> StreamHealth {
    let mut h = StreamHealth::new();
    h.state = StreamState::Running;
    h.metrics.fps = 30;
    h
}

#[test]
fn health_monitor_test_health_monitor_creation() {
    let config = MonitorConfig::default();
    let monitor = HealthMonitor::new(config, 0);
    assert_eq!(monitor.stream_count(), 0);
}

#[test]
fn test_stream_registration() {
    let mut monitor = HealthMonitor::new(MonitorConfig::default(), 0);
    let health = StreamHealth::new();
    monitor.register_stream("test_stream".to_string(), health, 0);
    assert_eq!(monitor.stream_count(), 1);
    assert!(monitor.get_stream_health("test_stream").is_some());
    monitor.unregister_stream("test_stream", 0);
    assert_eq!(monitor.stream_count(), 0);
}

#[test]
fn test_health_report_generation() {
    let mut monitor = HealthMonitor::new(MonitorConfig::default(), 0);
    for i in 0..3 {
        let mut health = StreamHealth::new();
        health.state = StreamState::Running;
        monitor.register_stream(format!("stream_{i}"), health, 0);
    }
    let report = monitor.generate_report(10);
    assert_eq!(report.system_metrics.total_streams, 3);
    assert_eq!(report.system_metrics.active_streams, 3);
    assert_eq!(report.overall_health, HealthStatus::Healthy);
}

#[test]
fn test_alert_logging() {
    let mut monitor = HealthMonitor::new(MonitorConfig::default(), 0);
    for i in 0..5 {
        monitor.log_event(HealthAlert {
            timestamp_ms: 0,
            severity: AlertSeverity::Info,
            stream: Some(format!("stream_{i}")),
            message: "Test alert".to_string(),
        });
    }
    let alerts = monitor.get_recent_alerts(3);
    assert_eq!(alerts.len(), 3);
    monitor.clear_alerts();
    let alerts = monitor.get_recent_alerts(10);
    assert_eq!(alerts.len(), 0);
}

#[test]
fn recent_alerts_come_newest_first() {
    let mut monitor = HealthMonitor::new(MonitorConfig::default(), 0);
    for i in 0..4u64 {
        monitor.log_event(HealthAlert { timestamp_ms: i, severity: AlertSeverity::Warning, stream: None, message: format!("m{i}") });
    }
    let alerts = monitor.get_recent_alerts(2);
    assert_eq!(alerts[0].message, "m3");
    assert_eq!(alerts[1].message, "m2");
    assert_eq!(monitor.get_recent_alerts(100).len(), 4);
}

#[test]
fn event_log_is_bounded() {
    let mut monitor = HealthMonitor::new(MonitorConfig::default(), 0);
    for i in 0..1005u64 {
        monitor.log_event(HealthAlert { timestamp_ms: i, severity: AlertSeverity::Info, stream: None, message: String::new() });
    }
    let all = monitor.get_recent_alerts(5000);
    assert_eq!(all.len(), 1000);
    assert_eq!(all[0].timestamp_ms, 1004);
    assert_eq!(all[999].timestamp_ms, 5);
    assert_eq!(monitor.generate_report(0).alerts.len(), 1000);
}

#[test]
fn rollup_rules() {
    let mut monitor = HealthMonitor::new(MonitorConfig::default(), 0);
    monitor.register_stream("a".to_string(), running(), 0);
    let mut idle = StreamHealth::new();
    idle.state = StreamState::Starting;
    monitor.register_stream("b".to_string(), idle, 0);
    let report = monitor.generate_report(5);
    assert_eq!(report.overall_health, HealthStatus::Degraded);
    assert_eq!(report.system_metrics.active_streams, 1);
    assert_eq!(report.system_metrics.pipeline_uptime_ms, 5);
    let mut failed = StreamHealth::new();
    failed.state = StreamState::Failed;
    monitor.register_stream("c".to_string(), failed, 0);
    let report = monitor.generate_report(5);
    assert_eq!(report.overall_health, HealthStatus::Critical);
    assert_eq!(report.system_metrics.failed_streams, 1);
    assert_eq!(report.stream_health.len(), 3);
}

#[test]
fn checks_raise_the_three_alerts() {
    let config = MonitorConfig::default();
    let mut h = running();
    h.metrics.fps = 5;
    h.metrics.errors = 101;
    h.metrics.last_frame_time = Some(0);
    let alerts = check_stream("s", &h, &config, 10_001);
    let sev: Vec<AlertSeverity> = alerts.iter().map(|a| a.severity).collect();
    assert_eq!(sev, vec![AlertSeverity::Critical, AlertSeverity::Warning, AlertSeverity::Error]);
    assert!(check_stream("s", &h, &config, 10_000).iter().all(|a| a.severity != AlertSeverity::Critical));
    let quiet = running();
    assert!(check_stream("s", &quiet, &config, 1).is_empty());
}

#[test]
fn monitoring_pass_logs_its_alerts() {
    let mut monitor = HealthMonitor::new(MonitorConfig::default(), 0);
    let mut slow = running();
    slow.metrics.fps = 1;
    monitor.register_stream("slow".to_string(), slow, 0);
    monitor.register_stream("ok".to_string(), running(), 0);
    monitor.clear_alerts();
    let raised = monitor.run_checks(50);
    assert_eq!(raised.len(), 1);
    assert_eq!(raised[0].stream.as_deref(), Some("slow"));
    assert_eq!(monitor.get_recent_alerts(10).len(), 1);
    assert!(monitor.detect_deadlock("slow", 50) == false);
}

#[test]
fn deadlock_detection_uses_the_stall_limit() {
    let mut monitor = HealthMonitor::new(MonitorConfig::default(), 0);
    let mut h = running();
    h.metrics.last_frame_time = Some(1000);
    monitor.register_stream("s".to_string(), h, 0);
    assert!(!monitor.detect_deadlock("s", 11_000));
    assert!(monitor.detect_deadlock("s", 11_001));
    assert!(!monitor.detect_deadlock("missing", 99_999));
    let mut fresh = running();
    fresh.metrics.last_frame_time = Some(11_000);
    assert!(monitor.update_stream("s", fresh));
    assert!(!monitor.detect_deadlock("s", 11_001));
}

#[test]
fn monitor_defaults() {
    let c = MonitorConfig::default();
    assert_eq!(c.deadlock_timeout_ms, 10_000);
    assert_eq!(c.fps_threshold, 10);
    assert_eq!(c.error_threshold, 100);
    assert_eq!(c.event_log_size, 1000);
}
