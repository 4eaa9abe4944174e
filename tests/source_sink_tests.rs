use dsl_rs::backoff::calculate_delay;
use dsl_rs::error::DslError;
use dsl_rs::model::{RecoveryAction, RetryConfig, StreamState};
use dsl_rs::sinks::{
    build_launch_string, check_rotation_needed, excess_files, file_sink_handle_error, generate_filename,
    needs_rotation_on_error, publish_location, rtsp_sink_handle_error, should_adapt_bandwidth, sink_bitrate,
    RotationConfig, RtspServerConfig,
};
use dsl_rs::sources::{
    buffer_mode_name, classify_network_error, next_reconnect_delay, rtsp_handle_error, ConnectionState, FileSourceState,
    RtspConfig, RtspSourceState,
};

#[test]
fn test_rtsp_config_defaults() {
    let config = RtspConfig::default();
    assert_eq!(config.protocols, 0x00000004);
    assert_eq!(config.latency, 100);
    assert_eq!(config.buffer_mode, 3);
}

#[test]
fn test_retry_delay_calculation() {
    let config = RetryConfig::default();
    let delay0 = calculate_delay(&config, 0, 200);
    let delay1 = calculate_delay(&config, 1, 200);
    let delay2 = calculate_delay(&config, 2, 200);
    assert!(delay1 > delay0);
    assert!(delay2 > delay1);
    assert!(delay2 <= config.max_delay_ms);
}

#[test]
fn test_network_error_classification() {
    assert_eq!(classify_network_error("401 Unauthorized", true), RecoveryAction::Replace);
    assert_eq!(classify_network_error("timeout occurred", true), RecoveryAction::Retry);
    assert_eq!(classify_network_error("404 Not Found", true), RecoveryAction::Remove);
    assert_eq!(classify_network_error("connection refused", true), RecoveryAction::Retry);
}

#[test]
fn test_restart_count() {
    let mut source = FileSourceState::new("test_source".to_string());
    assert_eq!(source.get_restart_count(), 0);
    source.handle_error(&DslError::Source("End of file reached".to_string()), false);
    assert_eq!(source.get_restart_count(), 1);
}

#[test]
fn test_filename_generation() {
    let config = RotationConfig::default();
    let filename1 = generate_filename(&config.base_filename, "test", 1_700_000_000, 0);
    let filename2 = generate_filename(&config.base_filename, "test", 1_700_000_000, 1);
    assert_ne!(filename1, filename2);
    assert!(filename1.contains("recording_test"));
    assert_eq!(filename2, "recording_test_1700000000_1.mp4");
}

#[test]
fn eof_with_loop_is_ignored_and_counted() {
    let mut source = FileSourceState::new("file".to_string());
    source.state = StreamState::Running;
    let action = source.handle_error(&DslError::Source("End of file reached".to_string()), false);
    assert_eq!(action, RecoveryAction::Ignore);
    assert_eq!(source.state, StreamState::Running);
    assert_eq!(source.restart_count, 1);
    assert_eq!(source.position, Some(0));
    assert_eq!(source.errors, 1);
}

#[test]
fn eof_without_loop_removes() {
    let mut source = FileSourceState::new("file".to_string());
    source.set_loop_on_eof(false);
    let action = source.handle_error(&DslError::Source("End of file reached".to_string()), true);
    assert_eq!(action, RecoveryAction::Remove);
    assert_eq!(source.restart_count, 0);
    assert_eq!(source.handle_error(&DslError::FileIo("gone".to_string()), false), RecoveryAction::Retry);
    assert!(FileSourceState::needs_in_place_recovery(&DslError::Network("x".to_string())));
    assert!(!FileSourceState::needs_in_place_recovery(&DslError::FileIo("x".to_string())));
    assert_eq!(source.handle_error(&DslError::Network("x".to_string()), true), RecoveryAction::Ignore);
    assert_eq!(source.handle_error(&DslError::Network("x".to_string()), false), RecoveryAction::Restart);
}

#[test]
fn network_404_is_removed() {
    let action = rtsp_handle_error(&DslError::Network("404 stream not found".to_string()), false, true);
    assert_eq!(action, RecoveryAction::Remove);
    assert_eq!(rtsp_handle_error(&DslError::Network("404".to_string()), true, true), RecoveryAction::Ignore);
    assert_eq!(rtsp_handle_error(&DslError::Source("x".to_string()), false, true), RecoveryAction::Restart);
    assert_eq!(classify_network_error("401 Unauthorized", false), RecoveryAction::Restart);
    assert_eq!(classify_network_error("Timeout", false), RecoveryAction::Retry);
    assert_eq!(classify_network_error("weird", false), RecoveryAction::Restart);
}

#[test]
fn reconnect_loop_plan() {
    let mut config = RetryConfig::default();
    config.jitter = false;
    config.max_attempts = 2;
    assert_eq!(next_reconnect_delay(&config, 0, 0), Some(100));
    assert_eq!(next_reconnect_delay(&config, 1, 0), Some(200));
    assert_eq!(next_reconnect_delay(&config, 2, 0), None);
}

#[test]
fn buffer_modes() {
    assert_eq!(buffer_mode_name(0), "none");
    assert_eq!(buffer_mode_name(3), "auto");
    assert_eq!(buffer_mode_name(4), "synced");
    assert_eq!(buffer_mode_name(9), "auto");
}

#[test]
fn rotation_rules() {
    let config = RotationConfig::default();
    assert!(!check_rotation_needed(&config, 100, 10_000_000));
    assert!(check_rotation_needed(&config, 104_857_600, 0));
    let mut timed = RotationConfig::default();
    timed.enable_size_rotation = false;
    timed.enable_time_rotation = true;
    assert!(!check_rotation_needed(&timed, u64::MAX, 3_599_999));
    assert!(check_rotation_needed(&timed, 0, 3_600_000));
    assert_eq!(excess_files(12, 10), 2);
    assert_eq!(excess_files(3, 10), 0);
}

#[test]
fn sink_error_answers() {
    assert!(needs_rotation_on_error(&DslError::FileIo("write failed".to_string())));
    assert!(!needs_rotation_on_error(&DslError::FileIo("No space left".to_string())));
    assert_eq!(file_sink_handle_error(&DslError::FileIo("write failed".to_string()), true), RecoveryAction::Ignore);
    assert_eq!(file_sink_handle_error(&DslError::FileIo("disk full".to_string()), true), RecoveryAction::Restart);
    assert_eq!(file_sink_handle_error(&DslError::FileIo("write failed".to_string()), false), RecoveryAction::Restart);
    assert_eq!(file_sink_handle_error(&DslError::ResourceExhaustion("x".to_string()), true), RecoveryAction::Remove);
    assert_eq!(file_sink_handle_error(&DslError::Sink("x".to_string()), true), RecoveryAction::Retry);
    assert_eq!(rtsp_sink_handle_error(&DslError::Network("x".to_string())), RecoveryAction::Ignore);
    assert_eq!(rtsp_sink_handle_error(&DslError::Sink("client gone".to_string())), RecoveryAction::Ignore);
    assert_eq!(rtsp_sink_handle_error(&DslError::Sink("encoder".to_string())), RecoveryAction::Restart);
}

#[test]
fn server_launch_description() {
    let config = RtspServerConfig::default();
    let launch = build_launch_string(config.key_frame_interval);
    assert!(launch.contains("videotestsrc"));
    assert!(launch.contains("x264enc"));
    assert!(launch.contains("rtph264pay"));
    assert!(launch.contains("key-int-max=60 "));
    assert_eq!(publish_location(8554, "/stream"), "rtsp://127.0.0.1:8554/stream");
    assert!(should_adapt_bandwidth(true, 11));
    assert!(!should_adapt_bandwidth(true, 10));
    assert!(!should_adapt_bandwidth(false, 50));
}

#[test]
fn bitrate_figures() {
    assert_eq!(sink_bitrate(1000, 0), 8000);
    assert_eq!(sink_bitrate(1000, 1), 4000);
    assert_eq!(sink_bitrate(u64::MAX, 0), u64::MAX);
}

#[test]
fn network_source_state_after_an_error() {
    let mut src = RtspSourceState::new("cam".to_string(), true);
    src.state = StreamState::Running;
    let e = DslError::Network("404 Not Found".to_string());
    assert_eq!(src.handle_error(&e, false), RecoveryAction::Remove);
    assert_eq!(src.state, StreamState::Failed);
    assert_eq!(src.connection_state, ConnectionState::Failed);
    assert_eq!(src.errors, 1);
    assert_eq!(src.handle_error(&e, true), RecoveryAction::Ignore);
    assert_eq!(src.state, StreamState::Running);
    assert_eq!(src.total_reconnects, 1);
    assert_eq!(src.errors, 2);
}
