//! Per-stream data: lifecycle state, metrics, health record, retry settings
//! and pipeline configuration.
use vstd::prelude::*;
use vstd::string::*;

use crate::error::DslError;

verus! {

/// Lifecycle state of one stream.
#[derive(Debug, Clone, Copy, PartialEq, Eq, Structural)]
pub enum StreamState {
    Idle,
    Starting,
    Running,
    Paused,
    Recovering,
    Failed,
    Stopped,
}

/// The display name of a state.
pub open spec fn state_name(s: StreamState) -> Seq<char> {
    match s {
        StreamState::Idle => "Idle"@,
        StreamState::Starting => "Starting"@,
        StreamState::Running => "Running"@,
        StreamState::Paused => "Paused"@,
        StreamState::Recovering => "Recovering"@,
        StreamState::Failed => "Failed"@,
        StreamState::Stopped => "Stopped"@,
    }
}

impl StreamState {
    /// The display name of the state ("Running", "Failed", ...).
    pub fn to_string(&self) -> (r: String)
        ensures
            r@ == state_name(*self),
    {
        match self {
            StreamState::Idle => String::from_str("Idle"),
            StreamState::Starting => String::from_str("Starting"),
            StreamState::Running => String::from_str("Running"),
            StreamState::Paused => String::from_str("Paused"),
            StreamState::Recovering => String::from_str("Recovering"),
            StreamState::Failed => String::from_str("Failed"),
            StreamState::Stopped => String::from_str("Stopped"),
        }
    }
}

/// What the recovery machinery asks the supervisor to do about a failure.
#[derive(Debug, Clone, Copy, PartialEq, Eq, Structural)]
pub enum RecoveryAction {
    /// Re-run the failing operation.
    Retry,
    /// Tear the stream's subgraph down and rebuild it.
    Restart,
    /// Drop the source instance; the caller supplies a new one.
    Replace,
    /// Remove the stream from the pipeline.
    Remove,
    /// Nothing to do; the event is consumed.
    Ignore,
    /// Surface the failure to the caller.
    Escalate,
}

/// Counters and rates of one stream. Rates are whole units: frames per
/// second and bits per second; times are milliseconds.
#[derive(Debug, Clone, Copy, PartialEq, Eq, Structural)]
pub struct StreamMetrics {
    pub fps: u64,
    pub bitrate: u64,
    pub frames_processed: u64,
    pub frames_dropped: u64,
    pub errors: u64,
    pub uptime_ms: u64,
    /// Monotonic timestamp (ms) of the last frame seen, if any.
    pub last_frame_time: Option<u64>,
}

impl StreamMetrics {
    /// All counters zero and no frame seen yet.
    pub fn new() -> (r: StreamMetrics)
        ensures
            r == (StreamMetrics {
                fps: 0,
                bitrate: 0,
                frames_processed: 0,
                frames_dropped: 0,
                errors: 0,
                uptime_ms: 0,
                last_frame_time: None,
            }),
    {
        StreamMetrics {
            fps: 0,
            bitrate: 0,
            frames_processed: 0,
            frames_dropped: 0,
            errors: 0,
            uptime_ms: 0,
            last_frame_time: None,
        }
    }
}

impl Default for StreamMetrics {
    fn default() -> (r: StreamMetrics)
        ensures
            r == StreamMetrics::spec_zero(),
    {
        StreamMetrics::new()
    }
}

impl StreamMetrics {
    pub open spec fn spec_zero() -> StreamMetrics {
        StreamMetrics {
            fps: 0,
            bitrate: 0,
            frames_processed: 0,
            frames_dropped: 0,
            errors: 0,
            uptime_ms: 0,
            last_frame_time: None,
        }
    }
}

/// Below this many consecutive errors a running or paused stream is healthy.
pub const HEALTHY_ERROR_LIMIT: u32 = 3;

/// The mutable health record kept for each stream.
#[derive(Debug, Clone)]
pub struct StreamHealth {
    pub state: StreamState,
    pub metrics: StreamMetrics,
    pub last_error: Option<DslError>,
    pub consecutive_errors: u32,
    pub recovery_attempts: u32,
}

impl StreamHealth {
    /// Whether a record with this state and error count counts as healthy.
    pub open spec fn spec_is_healthy(self) -> bool {
        (self.state == StreamState::Running || self.state == StreamState::Paused)
            && self.consecutive_errors < HEALTHY_ERROR_LIMIT
    }

    /// A fresh record: Idle, zero counters, no error.
    pub fn new() -> (r: StreamHealth)
        ensures
            r.state == StreamState::Idle,
            r.metrics == StreamMetrics::spec_zero(),
            r.last_error.is_none(),
            r.consecutive_errors == 0,
            r.recovery_attempts == 0,
    {
        StreamHealth {
            state: StreamState::Idle,
            metrics: StreamMetrics::new(),
            last_error: None,
            consecutive_errors: 0,
            recovery_attempts: 0,
        }
    }

    /// Running or Paused, with fewer than three consecutive errors.
    pub fn is_healthy(&self) -> (r: bool)
        ensures
            r == self.spec_is_healthy(),
    {
        (self.state == StreamState::Running || self.state == StreamState::Paused)
            && self.consecutive_errors < HEALTHY_ERROR_LIMIT
    }
}

/// Retry settings of one stream. Delays are milliseconds; the growth factor
/// is a whole number.
#[derive(Debug, Clone, Copy, PartialEq, Eq, Structural)]
pub struct RetryConfig {
    pub max_attempts: u32,
    pub initial_delay_ms: u64,
    pub max_delay_ms: u64,
    pub exponential_base: u64,
    pub jitter: bool,
}

impl RetryConfig {
    pub open spec fn spec_default() -> RetryConfig {
        RetryConfig {
            max_attempts: 10,
            initial_delay_ms: 100,
            max_delay_ms: 30000,
            exponential_base: 2,
            jitter: true,
        }
    }
}

impl Default for RetryConfig {
    /// Ten attempts, 100 ms first delay, 30 s cap, base two, jitter on.
    fn default() -> (r: RetryConfig)
        ensures
            r == RetryConfig::spec_default(),
    {
        RetryConfig {
            max_attempts: 10,
            initial_delay_ms: 100,
            max_delay_ms: 30000,
            exponential_base: 2,
            jitter: true,
        }
    }
}

/// Settings of the pipeline controller; durations are milliseconds.
#[derive(Debug, Clone)]
pub struct PipelineConfig {
    pub name: String,
    pub enable_watchdog: bool,
    pub watchdog_timeout_ms: u64,
    pub max_streams: usize,
    pub enable_metrics: bool,
    pub metrics_interval_ms: u64,
}

impl Default for PipelineConfig {
    /// Watchdog on at 10 s, at most 32 streams, metrics every second.
    fn default() -> (r: PipelineConfig)
        ensures
            r.name@ == "dsl-pipeline"@,
            r.enable_watchdog,
            r.watchdog_timeout_ms == 10000,
            r.max_streams == 32,
            r.enable_metrics,
            r.metrics_interval_ms == 1000,
    {
        PipelineConfig {
            name: String::from_str("dsl-pipeline"),
            enable_watchdog: true,
            watchdog_timeout_ms: 10000,
            max_streams: 32,
            enable_metrics: true,
            metrics_interval_ms: 1000,
        }
    }
}

} // verus!
