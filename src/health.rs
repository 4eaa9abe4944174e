//! Health monitoring: per-stream checks, a bounded event log of alerts and
//! on-demand health reports.
use vstd::prelude::*;
use vstd::string::*;
use std::collections::VecDeque;

use crate::model::{StreamHealth, StreamState};
use crate::table::NameTable;

verus! {

#[derive(Debug, Clone, Copy, PartialEq, Eq, Structural)]
pub enum AlertSeverity {
    Info,
    Warning,
    Error,
    Critical,
}

/// One entry of the event log; the timestamp is monotonic milliseconds.
#[derive(Debug)]
pub struct HealthAlert {
    pub timestamp_ms: u64,
    pub severity: AlertSeverity,
    pub stream: Option<String>,
    pub message: String,
}

/// An alert reduced to plain values.
pub open spec fn alert_view(a: HealthAlert) -> (u64, AlertSeverity, Option<Seq<char>>, Seq<char>) {
    (
        a.timestamp_ms,
        a.severity,
        match a.stream {
            Some(s) => Some(s@),
            None => None,
        },
        a.message@,
    )
}


/// The most alerts that the event log keeps; the oldest leave first.
pub const EVENT_LOG_LIMIT: usize = 1000;

/// Thresholds of the health checks; times are milliseconds.
#[derive(Debug, Clone, Copy, PartialEq, Eq, Structural)]
pub struct MonitorConfig {
    pub check_interval_ms: u64,
    pub deadlock_timeout_ms: u64,
    pub memory_threshold_mb: u64,
    pub cpu_threshold_percent: u64,
    pub fps_threshold: u64,
    pub error_threshold: u64,
    pub event_log_size: usize,
}

impl Default for MonitorConfig {
    /// Checks every second; 10 s stall limit; 1 GiB; 80 % CPU; 10 fps; 100
    /// errors; 1000 log entries.
    fn default() -> (r: MonitorConfig)
        ensures
            r == (MonitorConfig {
                check_interval_ms: 1000,
                deadlock_timeout_ms: 10000,
                memory_threshold_mb: 1024,
                cpu_threshold_percent: 80,
                fps_threshold: 10,
                error_threshold: 100,
                event_log_size: 1000,
            }),
    {
        MonitorConfig {
            check_interval_ms: 1000,
            deadlock_timeout_ms: 10000,
            memory_threshold_mb: 1024,
            cpu_threshold_percent: 80,
            fps_threshold: 10,
            error_threshold: 100,
            event_log_size: 1000,
        }
    }
}

#[derive(Debug, Clone, Copy, PartialEq, Eq, Structural)]
pub enum HealthStatus {
    Healthy,
    Degraded,
    Critical,
}

/// Counts over all monitored streams.
#[derive(Debug, Clone, Copy, PartialEq, Eq, Structural)]
pub struct SystemMetrics {
    pub total_streams: usize,
    pub active_streams: usize,
    pub failed_streams: usize,
    pub total_memory_mb: u64,
    pub total_cpu_percent: u64,
    pub pipeline_uptime_ms: u64,
}

/// One stream's line in a health report.
#[derive(Debug)]
pub struct StreamHealthMetrics {
    pub name: String,
    pub state: StreamState,
    pub fps: u64,
    pub bitrate: u64,
    pub frames_processed: u64,
    pub frames_dropped: u64,
    pub errors: u64,
    pub uptime_ms: u64,
    pub last_activity_ms: u64,
    pub memory_usage: u64,
    pub cpu_usage: u64,
}

#[derive(Debug)]
pub struct HealthReport {
    pub timestamp_ms: u64,
    pub overall_health: HealthStatus,
    pub stream_health: Vec<StreamHealthMetrics>,
    pub system_metrics: SystemMetrics,
    pub alerts: Vec<HealthAlert>,
}

/// Critical if any stream failed or the CPU total is over its threshold;
/// else Degraded if some stream is not active; else Healthy.
pub open spec fn overall_status(total: int, active: int, failed: int, cpu: int, cpu_threshold: int) -> HealthStatus {
    if failed > 0 || cpu > cpu_threshold {
        HealthStatus::Critical
    } else if active < total {
        HealthStatus::Degraded
    } else {
        HealthStatus::Healthy
    }
}

pub fn rollup(total: usize, active: usize, failed: usize, cpu: u64, cpu_threshold: u64) -> (r: HealthStatus)
    ensures
        r == overall_status(total as int, active as int, failed as int, cpu as int, cpu_threshold as int),
{
    if failed > 0 || cpu > cpu_threshold {
        HealthStatus::Critical
    } else if active < total {
        HealthStatus::Degraded
    } else {
        HealthStatus::Healthy
    }
}

/// Whether a stream in `s` counts as active.
pub open spec fn is_active(s: StreamState) -> bool {
    s == StreamState::Running || s == StreamState::Paused
}

/// `s` with `x` appended, dropping the oldest entry beyond the limit.
pub open spec fn log_push<T>(s: Seq<T>, x: T) -> Seq<T> {
    let t = s.push(x);
    if t.len() > EVENT_LOG_LIMIT {
        t.subrange(t.len() - EVENT_LOG_LIMIT, t.len() as int)
    } else {
        t
    }
}

/// `log` after each of `items` is pushed in turn.
pub open spec fn log_push_all<T>(log: Seq<T>, items: Seq<T>) -> Seq<T>
    decreases items.len(),
{
    if items.len() == 0 {
        log
    } else {
        log_push(log_push_all(log, items.drop_last()), items.last())
    }
}

/// Whether a stream whose last frame came at `last` has been silent longer
/// than `timeout` at `now`.
pub open spec fn frames_stalled(last: Option<u64>, now: u64, timeout: u64) -> bool {
    match last {
        Some(t) => now > t && now - t > timeout,
        None => false,
    }
}

/// The severities of the alerts one check of a stream raises, in order: a
/// stall (Critical), low frame rate while running (Warning), too many
/// errors (Error).
pub open spec fn check_severities(h: StreamHealth, config: MonitorConfig, now: u64) -> Seq<AlertSeverity> {
    let a = if frames_stalled(h.metrics.last_frame_time, now, config.deadlock_timeout_ms) {
        seq![AlertSeverity::Critical]
    } else {
        Seq::empty()
    };
    let b = if h.state == StreamState::Running && h.metrics.fps < config.fps_threshold {
        a.push(AlertSeverity::Warning)
    } else {
        a
    };
    if h.metrics.errors > config.error_threshold {
        b.push(AlertSeverity::Error)
    } else {
        b
    }
}

fn copy_alert(a: &HealthAlert) -> (r: HealthAlert)
    ensures
        alert_view(r) == alert_view(*a),
{
    HealthAlert {
        timestamp_ms: a.timestamp_ms,
        severity: a.severity,
        stream: match &a.stream {
            Some(s) => Some(s.clone()),
            None => None,
        },
        message: a.message.clone(),
    }
}

/// The alerts that one check of stream `name` raises at `now_ms`, in the
/// order of `check_severities`.
pub fn check_stream(name: &str, h: &StreamHealth, config: &MonitorConfig, now_ms: u64) -> (r: Vec<HealthAlert>)
    ensures
        r@.len() == check_severities(*h, *config, now_ms).len(),
        forall|i: int|
            0 <= i < r@.len() ==> {
                &&& (#[trigger] r@[i]).severity == check_severities(*h, *config, now_ms)[i]
                &&& r@[i].timestamp_ms == now_ms
                &&& r@[i].stream.is_some()
                &&& r@[i].stream.unwrap()@ == name@
            },
{
    let mut r: Vec<HealthAlert> = Vec::new();
    let stalled = match h.metrics.last_frame_time {
        Some(t) => now_ms > t && now_ms - t > config.deadlock_timeout_ms,
        None => false,
    };
    if stalled {
        r.push(HealthAlert {
            timestamp_ms: now_ms,
            severity: AlertSeverity::Critical,
            stream: Some(String::from_str(name)),
            message: String::from_str("No activity within the stall limit"),
        });
    }
    if h.state == StreamState::Running && h.metrics.fps < config.fps_threshold {
        r.push(HealthAlert {
            timestamp_ms: now_ms,
            severity: AlertSeverity::Warning,
            stream: Some(String::from_str(name)),
            message: String::from_str("Low FPS"),
        });
    }
    if h.metrics.errors > config.error_threshold {
        r.push(HealthAlert {
            timestamp_ms: now_ms,
            severity: AlertSeverity::Error,
            stream: Some(String::from_str(name)),
            message: String::from_str("High error count"),
        });
    }
    r
}

/// How many entries of a report are in an active state.
pub open spec fn count_active(s: Seq<StreamHealthMetrics>) -> int
    decreases s.len(),
{
    if s.len() == 0 {
        0
    } else {
        count_active(s.drop_last()) + if is_active(s.last().state) { 1int } else { 0int }
    }
}

/// How many entries of a report are Failed.
pub open spec fn count_failed(s: Seq<StreamHealthMetrics>) -> int
    decreases s.len(),
{
    if s.len() == 0 {
        0
    } else {
        count_failed(s.drop_last()) + if s.last().state == StreamState::Failed { 1int } else { 0int }
    }
}

proof fn lemma_counts_bounded(s: Seq<StreamHealthMetrics>)
    ensures
        0 <= count_active(s) <= s.len(),
        0 <= count_failed(s) <= s.len(),
    decreases s.len(),
{
    if s.len() > 0 {
        lemma_counts_bounded(s.drop_last());
    }
}

pub struct HealthMonitor {
    config: MonitorConfig,
    streams: NameTable<StreamHealth>,
    event_log: VecDeque<HealthAlert>,
    start_time_ms: u64,
    last_check_ms: u64,
    running: bool,
}

impl HealthMonitor {
    pub closed spec fn streams(&self) -> Map<Seq<char>, StreamHealth> {
        self.streams@
    }

    /// The event log as plain values, oldest first.
    pub closed spec fn log(&self) -> Seq<(u64, AlertSeverity, Option<Seq<char>>, Seq<char>)> {
        self.event_log@.map_values(|a: HealthAlert| alert_view(a))
    }

    pub closed spec fn spec_config(&self) -> MonitorConfig {
        self.config
    }

    pub closed spec fn spec_running(&self) -> bool {
        self.running
    }

    pub closed spec fn spec_start_time(&self) -> u64 {
        self.start_time_ms
    }

    pub closed spec fn wf(&self) -> bool {
        self.streams.wf() && self.event_log@.len() <= EVENT_LOG_LIMIT
    }

    /// The monitored streams of a well-formed monitor are finite.
    pub proof fn lemma_streams_finite(&self)
        requires
            self.wf(),
        ensures
            self.streams().dom().finite(),
    {
        self.streams.lemma_finite();
    }

    /// The event log never holds more than its limit.
    pub proof fn lemma_log_bounded(&self)
        requires
            self.wf(),
        ensures
            self.log().len() <= EVENT_LOG_LIMIT,
    {
    }

    /// A stopped monitor with no streams and an empty log, started at
    /// `now_ms`.
    pub fn new(config: MonitorConfig, now_ms: u64) -> (r: HealthMonitor)
        ensures
            r.wf(),
            r.spec_config() == config,
            r.streams() == Map::<Seq<char>, StreamHealth>::empty(),
            r.log() == Seq::<(u64, AlertSeverity, Option<Seq<char>>, Seq<char>)>::empty(),
            !r.spec_running(),
            r.spec_start_time() == now_ms,
    {
        let r = HealthMonitor {
            config,
            streams: NameTable::new(),
            event_log: VecDeque::new(),
            start_time_ms: now_ms,
            last_check_ms: now_ms,
            running: false,
        };
        assert(r.log() =~= Seq::<(u64, AlertSeverity, Option<Seq<char>>, Seq<char>)>::empty());
        r
    }

    /// Number of monitored streams.
    pub fn stream_count(&self) -> (r: usize)
        requires
            self.wf(),
        ensures
            r == self.streams().dom().len(),
    {
        self.streams.len()
    }

    /// Append `alert` to the event log, dropping the oldest entry when full.
    pub fn log_event(&mut self, alert: HealthAlert)
        requires
            old(self).wf(),
        ensures
            final(self).wf(),
            final(self).log() == log_push(old(self).log(), alert_view(alert)),
            final(self).streams() == old(self).streams(),
            final(self).spec_config() == old(self).spec_config(),
            final(self).spec_running() == old(self).spec_running(),
            final(self).spec_start_time() == old(self).spec_start_time(),
    {
        let ghost v = alert_view(alert);
        self.event_log.push_back(alert);
        assert(self.log() =~= old(self).log().push(v));
        if self.event_log.len() > EVENT_LOG_LIMIT {
            let _ = self.event_log.pop_front();
            assert(self.log() =~= old(self).log().push(v).subrange(1, old(self).log().len() as int + 1));
        }
    }

    /// Monitor `health` under `name` and log an Info alert at `now_ms`.
    pub fn register_stream(&mut self, name: String, health: StreamHealth, now_ms: u64)
        requires
            old(self).wf(),
        ensures
            final(self).wf(),
            final(self).streams() == old(self).streams().insert(name@, health),
            final(self).log() == log_push(
                old(self).log(),
                (now_ms, AlertSeverity::Info, Some(name@), "Stream registered for monitoring"@),
            ),
            final(self).spec_config() == old(self).spec_config(),
    {
        self.streams.insert(name.as_str(), health);
        self.log_event(HealthAlert {
            timestamp_ms: now_ms,
            severity: AlertSeverity::Info,
            stream: Some(name),
            message: String::from_str("Stream registered for monitoring"),
        });
    }

    /// Replace the monitored record of `name`. Returns whether it is
    /// monitored.
    pub fn update_stream(&mut self, name: &str, health: StreamHealth) -> (r: bool)
        requires
            old(self).wf(),
        ensures
            final(self).wf(),
            r == old(self).streams().contains_key(name@),
            r ==> final(self).streams() == old(self).streams().insert(name@, health),
            !r ==> final(self).streams() == old(self).streams(),
            final(self).log() == old(self).log(),
            final(self).spec_config() == old(self).spec_config(),
    {
        if self.streams.contains(name) {
            self.streams.insert(name, health);
            true
        } else {
            false
        }
    }

    /// Stop monitoring `name`; if it was monitored, log an Info alert.
    pub fn unregister_stream(&mut self, name: &str, now_ms: u64)
        requires
            old(self).wf(),
        ensures
            final(self).wf(),
            final(self).streams() == old(self).streams().remove(name@),
            old(self).streams().contains_key(name@) ==> final(self).log() == log_push(
                old(self).log(),
                (now_ms, AlertSeverity::Info, Some(name@), "Stream unregistered from monitoring"@),
            ),
            !old(self).streams().contains_key(name@) ==> final(self).log() == old(self).log(),
            final(self).spec_config() == old(self).spec_config(),
    {
        if self.streams.remove(name).is_some() {
            self.log_event(HealthAlert {
                timestamp_ms: now_ms,
                severity: AlertSeverity::Info,
                stream: Some(String::from_str(name)),
                message: String::from_str("Stream unregistered from monitoring"),
            });
        }
    }

    pub fn start_monitoring(&mut self)
        ensures
            final(self).spec_running(),
            final(self).streams() == old(self).streams(),
            final(self).log() == old(self).log(),
            final(self).spec_config() == old(self).spec_config(),
            final(self).wf() == old(self).wf(),
    {
        self.running = true;
    }

    pub fn stop_monitoring(&mut self)
        ensures
            !final(self).spec_running(),
            final(self).streams() == old(self).streams(),
            final(self).log() == old(self).log(),
            final(self).spec_config() == old(self).spec_config(),
            final(self).wf() == old(self).wf(),
    {
        self.running = false;
    }

    /// The monitored record of `name`, if any.
    pub fn get_stream_health(&self, name: &str) -> (r: Option<&StreamHealth>)
        requires
            self.wf(),
        ensures
            r.is_some() == self.streams().contains_key(name@),
            r.is_some() ==> *r.unwrap() == self.streams()[name@],
    {
        self.streams.get(name)
    }

    /// Whether `name` is monitored and its last frame is older than the
    /// stall limit at `now_ms`.
    pub fn detect_deadlock(&self, name: &str, now_ms: u64) -> (r: bool)
        requires
            self.wf(),
        ensures
            r == (self.streams().contains_key(name@) && frames_stalled(
                self.streams()[name@].metrics.last_frame_time,
                now_ms,
                self.spec_config().deadlock_timeout_ms,
            )),
    {
        match self.streams.get(name) {
            Some(h) => match h.metrics.last_frame_time {
                Some(t) => now_ms > t && now_ms - t > self.config.deadlock_timeout_ms,
                None => false,
            },
            None => false,
        }
    }

    /// The `count` newest alerts, newest first.
    pub fn get_recent_alerts(&self, count: usize) -> (r: Vec<HealthAlert>)
        requires
            self.wf(),
        ensures
            r@.len() == if count < self.log().len() { count as int } else { self.log().len() as int },
            forall|i: int| 0 <= i < r@.len() ==> alert_view(#[trigger] r@[i]) == self.log()[self.log().len() - 1 - i],
    {
        let n = self.event_log.len();
        let mut r: Vec<HealthAlert> = Vec::new();
        let mut i: usize = 0;
        while i < n && i < count
            invariant
                n == self.event_log@.len(),
                n == self.log().len(),
                i <= n,
                i <= count,
                r@.len() == i,
                forall|j: int| 0 <= j < i ==> alert_view(#[trigger] r@[j]) == self.log()[n - 1 - j],
            decreases n - i,
        {
            let a = copy_alert(&self.event_log[n - 1 - i]);
            r.push(a);
            i = i + 1;
        }
        r
    }

    /// Empty the event log.
    pub fn clear_alerts(&mut self)
        requires
            old(self).wf(),
        ensures
            final(self).wf(),
            final(self).log() == Seq::<(u64, AlertSeverity, Option<Seq<char>>, Seq<char>)>::empty(),
            final(self).streams() == old(self).streams(),
            final(self).spec_config() == old(self).spec_config(),
    {
        self.event_log.clear();
        assert(self.log() =~= Seq::<(u64, AlertSeverity, Option<Seq<char>>, Seq<char>)>::empty());
    }

    /// One monitoring pass at `now_ms`: check every monitored stream, log
    /// the alerts raised, and return them.
    pub fn run_checks(&mut self, now_ms: u64) -> (r: Vec<HealthAlert>)
        requires
            old(self).wf(),
        ensures
            final(self).wf(),
            final(self).streams() == old(self).streams(),
            final(self).spec_config() == old(self).spec_config(),
            final(self).spec_running() == old(self).spec_running(),
            final(self).spec_start_time() == old(self).spec_start_time(),
            final(self).log() == log_push_all(old(self).log(), r@.map_values(|a: HealthAlert| alert_view(a))),
            forall|a: int|
                0 <= a < r@.len() ==> {
                    &&& (#[trigger] r@[a]).timestamp_ms == now_ms
                    &&& r@[a].stream.is_some()
                    &&& old(self).streams().contains_key(r@[a].stream.unwrap()@)
                    &&& check_severities(old(self).streams()[r@[a].stream.unwrap()@], old(self).spec_config(), now_ms).contains(r@[a].severity)
                },
            forall|k: Seq<char>, i: int|
                #[trigger] old(self).streams().contains_key(k) && 0 <= i < check_severities(old(self).streams()[k], old(self).spec_config(), now_ms).len()
                ==> exists|a: int| 0 <= a < r@.len() && r@[a].stream.is_some() && r@[a].stream.unwrap()@ == k
                    && r@[a].severity == #[trigger] check_severities(old(self).streams()[k], old(self).spec_config(), now_ms)[i],
    {
        let mut r: Vec<HealthAlert> = Vec::new();
        let names = self.streams.names();
        let n = names.len();
        let config = self.config;
        let ghost m = self.streams@;
        let ghost log0 = self.log();
        assert(r@.map_values(|a: HealthAlert| alert_view(a)) =~= Seq::<(u64, AlertSeverity, Option<Seq<char>>, Seq<char>)>::empty());
        let mut i: usize = 0;
        while i < n
            invariant
                self.wf(),
                self.streams@ == m,
                m == old(self).streams@,
                config == self.config,
                self.config == old(self).config,
                self.running == old(self).running,
                self.start_time_ms == old(self).start_time_ms,
                log0 == old(self).log(),
                n == names@.len(),
                i <= n,
                forall|j: int| 0 <= j < n ==> m.contains_key(#[trigger] names@[j]@),
                forall|k: Seq<char>| m.contains_key(k) ==> exists|j: int| 0 <= j < n && #[trigger] names@[j]@ == k,
                self.log() == log_push_all(log0, r@.map_values(|a: HealthAlert| alert_view(a))),
                forall|a: int|
                    0 <= a < r@.len() ==> {
                        &&& (#[trigger] r@[a]).timestamp_ms == now_ms
                        &&& r@[a].stream.is_some()
                        &&& m.contains_key(r@[a].stream.unwrap()@)
                        &&& check_severities(m[r@[a].stream.unwrap()@], config, now_ms).contains(r@[a].severity)
                    },
                forall|j: int, q: int|
                    0 <= j < i && 0 <= q < check_severities(m[names@[j]@], config, now_ms).len()
                    ==> exists|a: int| 0 <= a < r@.len() && r@[a].stream.is_some() && r@[a].stream.unwrap()@ == names@[j]@
                        && r@[a].severity == #[trigger] check_severities(m[names@[j]@], config, now_ms)[q],
            decreases n - i,
        {
            let name = &names[i];
            let h = self.streams.get(name.as_str()).unwrap();
            let found = check_stream(name.as_str(), h, &config, now_ms);
            let ghost sevs = check_severities(m[name@], config, now_ms);
            let ghost r_start = r@;
            let mut q: usize = 0;
            while q < found.len()
                invariant
                    self.wf(),
                    self.streams@ == m,
                    config == self.config,
                    self.config == old(self).config,
                    self.running == old(self).running,
                    self.start_time_ms == old(self).start_time_ms,
                    found@.len() == sevs.len(),
                    sevs == check_severities(m[name@], config, now_ms),
                    m.contains_key(name@),
                    forall|x: int|
                        0 <= x < found@.len() ==> {
                            &&& (#[trigger] found@[x]).severity == sevs[x]
                            &&& found@[x].timestamp_ms == now_ms
                            &&& found@[x].stream.is_some()
                            &&& found@[x].stream.unwrap()@ == name@
                        },
                    q <= found@.len(),
                    r@.len() == r_start.len() + q,
                    forall|a: int| 0 <= a < r_start.len() ==> r@[a] == r_start[a],
                    forall|x: int| 0 <= x < q ==> alert_view(#[trigger] r@[r_start.len() + x]) == alert_view(found@[x]),
                    self.log() == log_push_all(log0, r@.map_values(|a: HealthAlert| alert_view(a))),
                    forall|a: int|
                        0 <= a < r@.len() ==> {
                            &&& (#[trigger] r@[a]).timestamp_ms == now_ms
                            &&& r@[a].stream.is_some()
                            &&& m.contains_key(r@[a].stream.unwrap()@)
                            &&& check_severities(m[r@[a].stream.unwrap()@], config, now_ms).contains(r@[a].severity)
                        },
                decreases found@.len() - q,
            {
                let ghost before = r@;
                let a1 = copy_alert(&found[q]);
                let a2 = copy_alert(&found[q]);
                r.push(a1);
                self.log_event(a2);
                proof {
                    assert(r@.map_values(|a: HealthAlert| alert_view(a)).drop_last() =~= before.map_values(|a: HealthAlert| alert_view(a)));
                    assert(sevs[q as int] == found@[q as int].severity);
                    assert(sevs.contains(r@[r@.len() - 1].severity));
                }
                q = q + 1;
            }
            proof {
                assert forall|j: int, q2: int|
                    0 <= j < i + 1 && 0 <= q2 < check_severities(m[names@[j]@], config, now_ms).len()
                    implies exists|a: int| 0 <= a < r@.len() && r@[a].stream.is_some() && r@[a].stream.unwrap()@ == names@[j]@
                        && r@[a].severity == #[trigger] check_severities(m[names@[j]@], config, now_ms)[q2] by {
                    if j < i {
                        let a = choose|a: int| 0 <= a < r_start.len() && r_start[a].stream.is_some() && r_start[a].stream.unwrap()@ == names@[j]@
                            && r_start[a].severity == check_severities(m[names@[j]@], config, now_ms)[q2];
                        assert(r@[a] == r_start[a]);
                    } else {
                        let a = r_start.len() + q2;
                        assert(alert_view(r@[a]) == alert_view(found@[q2]));
                    }
                }
            }
            i = i + 1;
        }
        self.last_check_ms = now_ms;
        proof {
            assert forall|k: Seq<char>, q2: int|
                #[trigger] m.contains_key(k) && 0 <= q2 < check_severities(m[k], config, now_ms).len()
                implies exists|a: int| 0 <= a < r@.len() && r@[a].stream.is_some() && r@[a].stream.unwrap()@ == k
                    && r@[a].severity == #[trigger] check_severities(m[k], config, now_ms)[q2] by {
                let j = choose|j: int| 0 <= j < n && #[trigger] names@[j]@ == k;
                assert(0 <= q2 < check_severities(m[names@[j]@], config, now_ms).len());
                assert(check_severities(m[names@[j]@], config, now_ms)[q2] == check_severities(m[k], config, now_ms)[q2]);
            }
        }
        r
    }

    /// A report at `now_ms`: one line per monitored stream, the counts of
    /// active (Running or Paused) and Failed streams, the overall status and
    /// a copy of the event log.
    pub fn generate_report(&self, now_ms: u64) -> (r: HealthReport)
        requires
            self.wf(),
        ensures
            r.timestamp_ms == now_ms,
            r.stream_health@.len() == self.streams().dom().len(),
            forall|i: int|
                0 <= i < r.stream_health@.len() ==> {
                    &&& self.streams().contains_key((#[trigger] r.stream_health@[i]).name@)
                    &&& r.stream_health@[i].state == self.streams()[r.stream_health@[i].name@].state
                    &&& r.stream_health@[i].fps == self.streams()[r.stream_health@[i].name@].metrics.fps
                    &&& r.stream_health@[i].errors == self.streams()[r.stream_health@[i].name@].metrics.errors
                    &&& r.stream_health@[i].bitrate == self.streams()[r.stream_health@[i].name@].metrics.bitrate
                    &&& r.stream_health@[i].frames_processed == self.streams()[r.stream_health@[i].name@].metrics.frames_processed
                    &&& r.stream_health@[i].frames_dropped == self.streams()[r.stream_health@[i].name@].metrics.frames_dropped
                    &&& r.stream_health@[i].uptime_ms == self.streams()[r.stream_health@[i].name@].metrics.uptime_ms
                    &&& r.stream_health@[i].last_activity_ms == match self.streams()[r.stream_health@[i].name@].metrics.last_frame_time {
                        Some(t) => t,
                        None => now_ms,
                    }
                    &&& r.stream_health@[i].memory_usage == 0
                    &&& r.stream_health@[i].cpu_usage == 0
                },
            forall|i: int, j: int|
                0 <= i < r.stream_health@.len() && 0 <= j < r.stream_health@.len() && i != j
                    ==> r.stream_health@[i].name@ != r.stream_health@[j].name@,
            r.system_metrics.total_streams == self.streams().dom().len(),
            r.system_metrics.active_streams == count_active(r.stream_health@),
            r.system_metrics.failed_streams == count_failed(r.stream_health@),
            r.system_metrics.total_cpu_percent == 0,
            r.system_metrics.total_memory_mb == 0,
            r.system_metrics.pipeline_uptime_ms == if now_ms >= self.spec_start_time() {
                now_ms - self.spec_start_time()
            } else {
                0
            },
            r.overall_health == overall_status(
                r.system_metrics.total_streams as int,
                r.system_metrics.active_streams as int,
                r.system_metrics.failed_streams as int,
                0,
                self.spec_config().cpu_threshold_percent as int,
            ),
            r.alerts@.map_values(|a: HealthAlert| alert_view(a)) == self.log(),
    {
        let names = self.streams.names();
        let n = names.len();
        let mut lines: Vec<StreamHealthMetrics> = Vec::new();
        let mut active: usize = 0;
        let mut failed: usize = 0;
        let mut i: usize = 0;
        while i < n
            invariant
                self.wf(),
                n == names@.len(),
                n == self.streams@.dom().len(),
                i <= n,
                forall|j: int| 0 <= j < n ==> self.streams@.contains_key(#[trigger] names@[j]@),
                forall|j1: int, j2: int| 0 <= j1 < n && 0 <= j2 < n && j1 != j2 ==> names@[j1]@ != names@[j2]@,
                lines@.len() == i,
                forall|j: int| 0 <= j < i ==> (#[trigger] lines@[j]).name@ == names@[j]@,
                forall|j: int|
                    0 <= j < i ==> {
                        &&& (#[trigger] lines@[j]).state == self.streams@[names@[j]@].state
                        &&& lines@[j].fps == self.streams@[names@[j]@].metrics.fps
                        &&& lines@[j].errors == self.streams@[names@[j]@].metrics.errors
                        &&& lines@[j].bitrate == self.streams@[names@[j]@].metrics.bitrate
                        &&& lines@[j].frames_processed == self.streams@[names@[j]@].metrics.frames_processed
                        &&& lines@[j].frames_dropped == self.streams@[names@[j]@].metrics.frames_dropped
                        &&& lines@[j].uptime_ms == self.streams@[names@[j]@].metrics.uptime_ms
                        &&& lines@[j].last_activity_ms == match self.streams@[names@[j]@].metrics.last_frame_time {
                            Some(t) => t,
                            None => now_ms,
                        }
                        &&& lines@[j].memory_usage == 0
                        &&& lines@[j].cpu_usage == 0
                    },
                active as int == count_active(lines@),
                failed as int == count_failed(lines@),
            decreases n - i,
        {
            let name = &names[i];
            let h = self.streams.get(name.as_str()).unwrap();
            let line = StreamHealthMetrics {
                name: name.clone(),
                state: h.state,
                fps: h.metrics.fps,
                bitrate: h.metrics.bitrate,
                frames_processed: h.metrics.frames_processed,
                frames_dropped: h.metrics.frames_dropped,
                errors: h.metrics.errors,
                uptime_ms: h.metrics.uptime_ms,
                last_activity_ms: match h.metrics.last_frame_time {
                    Some(t) => t,
                    None => now_ms,
                },
                memory_usage: 0,
                cpu_usage: 0,
            };
            let ghost before = lines@;
            proof {
                lemma_counts_bounded(before);
            }
            if h.state == StreamState::Running || h.state == StreamState::Paused {
                active = active + 1;
            }
            if h.state == StreamState::Failed {
                failed = failed + 1;
            }
            lines.push(line);
            proof {
                assert(lines@.drop_last() =~= before);
            }
            i = i + 1;
        }
        let total = self.streams.len();
        let overall = rollup(total, active, failed, 0, self.config.cpu_threshold_percent);
        let mut alerts: Vec<HealthAlert> = Vec::new();
        let m = self.event_log.len();
        let mut j: usize = 0;
        while j < m
            invariant
                self.wf(),
                m == self.event_log@.len(),
                j <= m,
                alerts@.len() == j,
                forall|x: int| 0 <= x < j ==> alert_view(#[trigger] alerts@[x]) == alert_view(self.event_log@[x]),
            decreases m - j,
        {
            alerts.push(copy_alert(&self.event_log[j]));
            j = j + 1;
        }
        assert(alerts@.map_values(|a: HealthAlert| alert_view(a)) =~= self.log());
        let uptime: u64 = if now_ms >= self.start_time_ms {
            now_ms - self.start_time_ms
        } else {
            0
        };
        HealthReport {
            timestamp_ms: now_ms,
            overall_health: overall,
            stream_health: lines,
            system_metrics: SystemMetrics {
                total_streams: total,
                active_streams: active,
                failed_streams: failed,
                total_memory_mb: 0,
                total_cpu_percent: 0,
                pipeline_uptime_ms: uptime,
            },
            alerts,
        }
    }
}

} // verus!
