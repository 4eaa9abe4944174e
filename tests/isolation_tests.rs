use dsl_rs::error::DslError;
use dsl_rs::isolation::{IsolationConfig, RecoveryAction, ResourceQuota, StreamIsolator};

#[test]
fn test_stream_isolator_creation() {
    let config = IsolationConfig::default();
    let isolator = StreamIsolator::new(config);
    assert_eq!(isolator.stream_count(), 0);
}

#[test]
fn stream_isolator_test_stream_isolation() {
    let mut isolator = StreamIsolator::new(IsolationConfig::default());
    let result = isolator.isolate_stream("test_stream".to_string(), 0);
    assert!(result.is_ok());
    assert_eq!(isolator.stream_count(), 1);
    let result = isolator.isolate_stream("test_stream".to_string(), 0);
    assert!(result.is_err());
}

#[test]
fn test_resource_quota() {
    let mut isolator = StreamIsolator::new(IsolationConfig::default());
    isolator.isolate_stream("test".to_string(), 0).unwrap();
    let new_quota = ResourceQuota { max_memory_mb: 1024, max_cpu_percent: 50, max_threads: 8, max_file_handles: 20 };
    let result = isolator.set_stream_quota("test", new_quota);
    assert!(result.is_ok());
}

#[test]
fn test_panic_handling() {
    let mut isolator = StreamIsolator::new(IsolationConfig::default());
    isolator.isolate_stream("panic_test".to_string(), 0).unwrap();
    for i in 1..=4 {
        let action = isolator.handle_panic("panic_test").unwrap();
        if i <= 3 {
            assert!(matches!(action, RecoveryAction::Restart));
        } else {
            assert!(matches!(action, RecoveryAction::Remove));
        }
    }
    assert_eq!(isolator.panic_count("panic_test"), Some(4));
    assert_eq!(isolator.handle_panic("unknown").unwrap(), RecoveryAction::Ignore);
}

#[test]
fn memory_quota_is_enforced() {
    let mut isolator = StreamIsolator::new(IsolationConfig::default());
    isolator.isolate_stream("m".to_string(), 0).unwrap();
    assert!(isolator.enforce_memory_quota("m").is_ok());
    isolator.record_usage("m", 512 * 1_048_576, 10, 5);
    assert!(isolator.enforce_memory_quota("m").is_ok());
    isolator.record_usage("m", 512 * 1_048_576 + 1, 10, 6);
    assert!(matches!(isolator.enforce_memory_quota("m"), Err(DslError::ResourceExhaustion(_))));
    assert_eq!(isolator.get_stream_resources("m"), Some((512 * 1_048_576 + 1, 10)));
    let mut relaxed = IsolationConfig::default();
    relaxed.enable_resource_limits = false;
    let mut loose = StreamIsolator::new(relaxed);
    loose.isolate_stream("m".to_string(), 0).unwrap();
    loose.record_usage("m", u64::MAX, 100, 1);
    assert!(loose.enforce_memory_quota("m").is_ok());
}

#[test]
fn cpu_throttling_only_when_enabled() {
    let mut isolator = StreamIsolator::new(IsolationConfig::default());
    isolator.isolate_stream("c".to_string(), 0).unwrap();
    isolator.record_usage("c", 0, 90, 1);
    assert_eq!(isolator.throttle_cpu("c"), Ok(false));
    let mut cfg = IsolationConfig::default();
    cfg.enable_cpu_throttling = true;
    let mut t = StreamIsolator::new(cfg);
    t.isolate_stream("c".to_string(), 0).unwrap();
    t.record_usage("c", 0, 90, 1);
    assert_eq!(t.throttle_cpu("c"), Ok(true));
    t.record_usage("c", 0, 25, 2);
    assert_eq!(t.throttle_cpu("c"), Ok(false));
}

#[test]
fn removing_unknown_streams_fails() {
    let mut isolator = StreamIsolator::new(IsolationConfig::default());
    assert!(matches!(isolator.remove_stream("x"), Err(DslError::Other(_))));
    assert!(matches!(isolator.set_stream_quota("x", ResourceQuota::default()), Err(DslError::Other(_))));
    isolator.isolate_stream("x".to_string(), 0).unwrap();
    assert!(isolator.remove_stream("x").is_ok());
    assert_eq!(isolator.stream_count(), 0);
}

#[test]
fn quota_defaults() {
    let q = ResourceQuota::default();
    assert_eq!(q.max_memory_mb, 512);
    assert_eq!(q.max_threads, 4);
    let c = IsolationConfig::default();
    assert!(c.enable_panic_isolation);
    assert!(!c.enable_cpu_throttling);
    assert_eq!(c.thread_pool_size, 8);
}
