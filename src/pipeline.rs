//! The pipeline controller: the stream map, the lifecycle state table, the
//! watchdog and the admission cap. The processing graph itself is driven by
//! the caller; this type keeps the control-plane state and decides.
use vstd::prelude::*;
use vstd::string::*;

use crate::error::{DslError, DslResult};
use crate::health::{AlertSeverity, HealthAlert};
use crate::model::{PipelineConfig, StreamHealth, StreamMetrics, StreamState};
use crate::state_machine::{state_in, step, StateMachine, TransitionCondition};
use crate::table::NameTable;

verus! {

/// What the controller keeps for each stream.
#[derive(Debug)]
pub struct StreamInfo {
    pub health: StreamHealth,
    /// Monotonic time (ms) of the last liveness feed.
    pub last_activity_ms: u64,
}

/// `x + 1`, or `x` at the top of `u32`.
pub open spec fn inc32(x: u32) -> u32 {
    if x < 0xffff_ffff {
        (x + 1) as u32
    } else {
        x
    }
}

pub fn inc_u32(x: u32) -> (r: u32)
    ensures
        r == inc32(x),
{
    if x < 0xffff_ffff {
        x + 1
    } else {
        x
    }
}

/// Whether a stream last fed at `last` has been silent for longer than
/// `timeout` at `now`.
pub open spec fn stalled(last: u64, now: u64, timeout: u64) -> bool {
    now > last && now - last > timeout
}

/// A stream's record after the watchdog found it silent: one more
/// consecutive error, and Running demoted to Recovering.
pub open spec fn after_stall(info: StreamInfo) -> StreamInfo {
    StreamInfo {
        health: StreamHealth {
            consecutive_errors: inc32(info.health.consecutive_errors),
            state: if info.health.state == StreamState::Running {
                StreamState::Recovering
            } else {
                info.health.state
            },
            ..info.health
        },
        ..info
    }
}

/// A stream's record after a watchdog tick at `now`.
pub open spec fn ticked(info: StreamInfo, now: u64, timeout: u64) -> StreamInfo {
    if stalled(info.last_activity_ms, now, timeout) {
        after_stall(info)
    } else {
        info
    }
}

/// The later of two instants.
pub open spec fn later(a: u64, b: u64) -> u64 {
    if a >= b {
        a
    } else {
        b
    }
}

/// A record with its lifecycle state replaced.
pub open spec fn set_state(info: StreamInfo, s: StreamState) -> StreamInfo {
    StreamInfo { health: StreamHealth { state: s, ..info.health }, ..info }
}

/// A record after `condition` is applied to it, if its state is `from` (any
/// state when `from` is `None`) and the transition is legal.
pub open spec fn moved(info: StreamInfo, from: Option<StreamState>, condition: TransitionCondition) -> StreamInfo {
    let selected = match from {
        Some(f) => info.health.state == f,
        None => true,
    };
    if selected && step(info.health.state, condition).is_some() {
        set_state(info, step(info.health.state, condition).unwrap())
    } else {
        info
    }
}

/// A watchdog tick leaves a stream fed within the timeout untouched.
pub proof fn lemma_tick_spares_live_stream(info: StreamInfo, now: u64, timeout: u64)
    requires
        !stalled(info.last_activity_ms, now, timeout),
    ensures
        ticked(info, now, timeout) == info,
{
}

/// Feeding moves a stream's clock forward only, to at least the feed time,
/// so a tick at that time no longer finds the stream silent.
pub proof fn lemma_feed_moves_forward(last: u64, now: u64, timeout: u64)
    ensures
        later(last, now) >= last,
        later(last, now) >= now,
        !stalled(later(last, now), now, timeout),
{
}

/// Pausing a running stream and then resuming it brings it back to Running
/// with the rest of its record unchanged, whether one stream is paused or
/// the whole pipeline.
pub proof fn lemma_pause_resume(info: StreamInfo)
    requires
        info.health.state == StreamState::Running,
    ensures
        set_state(set_state(info, StreamState::Paused), StreamState::Running) == info,
        moved(
            moved(info, Some(StreamState::Running), TransitionCondition::OnSuccess),
            Some(StreamState::Paused),
            TransitionCondition::OnSuccess,
        ) == info,
{
}

/// Whether the element named `element` belongs to the stream `id`: its
/// name is the id, or the id followed by an underscore and more.
pub open spec fn owns_element(id: Seq<char>, element: Seq<char>) -> bool {
    element.len() >= id.len() && element.subrange(0, id.len() as int) == id && (element.len() == id.len()
        || element[id.len() as int] == '_')
}

pub fn element_belongs_to(id: &str, element: &str) -> (r: bool)
    ensures
        r == owns_element(id@, element@),
{
    let n = id.unicode_len();
    let m = element.unicode_len();
    if m < n {
        return false;
    }
    let mut i: usize = 0;
    while i < n
        invariant
            n == id@.len(),
            m == element@.len(),
            n <= m,
            i <= n,
            forall|j: int| 0 <= j < i ==> element@[j] == id@[j],
        decreases n - i,
    {
        if element.get_char(i) != id.get_char(i) {
            assert(element@.subrange(0, n as int)[i as int] != id@[i as int]);
            return false;
        }
        i = i + 1;
    }
    assert(element@.subrange(0, n as int) =~= id@);
    m == n || element.get_char(n) == '_'
}

/// A notification about a stream, for observers of the controller.
#[derive(Debug)]
pub enum PipelineEvent {
    StreamAdded(String),
    StreamRemoved(String),
    StreamStateChanged(String, StreamState),
    StreamError(String, String),
    StreamRecovered(String),
    WatchdogTimeout(String),
    MetricsUpdate(String, StreamMetrics),
}

/// Whether some stream of `m` owns the element named `element`.
pub open spec fn has_owner(m: Map<Seq<char>, StreamInfo>, element: Seq<char>) -> bool {
    exists|k: Seq<char>| #[trigger] m.contains_key(k) && owns_element(k, element)
}

/// A message of the processing graph's event bus, with the name of the
/// element that posted it.
#[derive(Debug)]
pub enum BusEvent {
    Error { element: String, message: String },
    Warning { element: String, message: String },
    Eos { element: String },
    StateChanged { element: String },
    StreamStatus { element: String },
}

/// What the controller did with a bus message.
#[derive(Debug)]
pub enum BusReaction {
    /// The stream was marked as failing; the caller runs recovery for it.
    Recover(String),
    /// An error from an element of no known stream.
    Unowned,
    /// The caller logs the warning.
    Log,
    /// End of stream from the given stream, if known; the caller applies
    /// the source's end-of-file policy.
    EndOfStream(Option<String>),
    /// The stream's watchdog clock was fed, if the element is known.
    Fed(Option<String>),
    /// Nothing to do.
    Nothing,
}

pub struct RobustPipeline {
    config: PipelineConfig,
    streams: NameTable<StreamInfo>,
    state_machine: StateMachine,
    watchdog_running: bool,
    metrics_running: bool,
}

impl RobustPipeline {
    /// The stream map: stream id to record.
    pub closed spec fn streams(&self) -> Map<Seq<char>, StreamInfo> {
        self.streams@
    }

    /// The state table of the lifecycle machine.
    pub closed spec fn states(&self) -> Map<Seq<char>, StreamState> {
        self.state_machine@
    }

    pub closed spec fn spec_config(&self) -> PipelineConfig {
        self.config
    }

    pub closed spec fn spec_watchdog_running(&self) -> bool {
        self.watchdog_running
    }

    pub closed spec fn spec_metrics_running(&self) -> bool {
        self.metrics_running
    }

    /// Every stream in the map has exactly one health record (its map
    /// entry) and exactly one entry in the state table, and the two agree.
    pub closed spec fn wf(&self) -> bool {
        &&& self.streams.wf()
        &&& self.state_machine.wf()
        &&& forall|k: Seq<char>| #[trigger] self.streams@.contains_key(k) ==> {
            &&& self.state_machine@.contains_key(k)
            &&& self.state_machine@[k] == self.streams@[k].health.state
        }
    }

    /// For every stream id in the map there is one state-table entry, and it
    /// holds the state of the stream's health record.
    pub proof fn lemma_one_record_per_stream(&self, id: Seq<char>)
        requires
            self.wf(),
            self.streams().contains_key(id),
        ensures
            self.states().contains_key(id),
            self.states()[id] == self.streams()[id].health.state,
    {
    }

    /// The stream map and the state table of a well-formed controller are
    /// finite, and the map has as many streams as its domain counts.
    pub proof fn lemma_streams_finite(&self)
        requires
            self.wf(),
        ensures
            self.streams().dom().finite(),
            self.states().dom().finite(),
    {
        self.streams.lemma_finite();
        self.state_machine.lemma_finite();
    }

    /// A controller with no streams and its collectors stopped.
    pub fn new(config: PipelineConfig) -> (r: DslResult<RobustPipeline>)
        ensures
            r.is_ok(),
            r.unwrap().wf(),
            r.unwrap().spec_config() == config,
            r.unwrap().streams() == Map::<Seq<char>, StreamInfo>::empty(),
            r.unwrap().states() == Map::<Seq<char>, StreamState>::empty(),
            !r.unwrap().spec_watchdog_running(),
            !r.unwrap().spec_metrics_running(),
    {
        Ok(RobustPipeline {
            config,
            streams: NameTable::new(),
            state_machine: StateMachine::new(),
            watchdog_running: false,
            metrics_running: false,
        })
    }

    pub fn config(&self) -> (r: &PipelineConfig)
        ensures
            *r == self.spec_config(),
    {
        &self.config
    }

    /// Number of streams in the map.
    pub fn stream_count(&self) -> (r: usize)
        requires
            self.wf(),
        ensures
            r == self.streams().dom().len(),
    {
        self.streams.len()
    }

    /// Admit a stream named `name` at time `now_ms`. It fails with
    /// ResourceExhaustion when `max_streams` streams are already admitted,
    /// and with Pipeline when the name is taken. On success the stream enters
    /// the map with a fresh health record and moves from Idle to Starting.
    pub fn add_stream(&mut self, name: &str, now_ms: u64) -> (r: DslResult<()>)
        requires
            old(self).wf(),
        ensures
            final(self).wf(),
            final(self).spec_config() == old(self).spec_config(),
            final(self).spec_watchdog_running() == old(self).spec_watchdog_running(),
            final(self).spec_metrics_running() == old(self).spec_metrics_running(),
            old(self).streams().dom().len() >= old(self).spec_config().max_streams ==> r matches Err(
                DslError::ResourceExhaustion(_),
            ),
            old(self).streams().dom().len() < old(self).spec_config().max_streams && old(
                self,
            ).streams().contains_key(name@) ==> r matches Err(DslError::Pipeline(_)),
            r.is_ok() == (old(self).streams().dom().len() < old(self).spec_config().max_streams
                && !old(self).streams().contains_key(name@)),
            r.is_err() ==> final(self).streams() == old(self).streams() && final(self).states()
                == old(self).states(),
            r.is_ok() ==> {
                let info = final(self).streams()[name@];
                &&& final(self).streams().dom() == old(self).streams().dom().insert(name@)
                &&& forall|k: Seq<char>| k != name@ ==> #[trigger] final(self).streams().contains_key(k) ==> final(self).streams()[k] == old(self).streams()[k]
                &&& info.health.state == StreamState::Starting
                &&& info.health.metrics == StreamMetrics::spec_zero()
                &&& info.health.last_error.is_none()
                &&& info.health.consecutive_errors == 0
                &&& info.health.recovery_attempts == 0
                &&& info.last_activity_ms == now_ms
                &&& final(self).states() == old(self).states().insert(name@, StreamState::Starting)
            },
    {
        if self.streams.len() >= self.config.max_streams {
            return Err(DslError::ResourceExhaustion(String::from_str("Maximum streams reached")));
        }
        if self.streams.contains(name) {
            return Err(DslError::Pipeline(String::from_str("Failed to add stream bin: name in use")));
        }
        self.state_machine.reset(name);
        let s = self.state_machine.transition(name, TransitionCondition::OnSuccess);
        assert(s == Some(StreamState::Starting));
        let mut health = StreamHealth::new();
        health.state = StreamState::Starting;
        self.streams.insert(name, StreamInfo { health, last_activity_ms: now_ms });
        proof {
            assert(self.streams@.dom() =~= old(self).streams@.dom().insert(name@));
            assert(self.state_machine@ =~= old(self).state_machine@.insert(name@, StreamState::Starting));
        }
        Ok(())
    }

    /// Take `name` out of the stream map and record it as Stopped in the
    /// state table. Fails with Stream when the name is unknown.
    pub fn remove_stream(&mut self, name: &str) -> (r: DslResult<()>)
        requires
            old(self).wf(),
        ensures
            final(self).wf(),
            final(self).spec_config() == old(self).spec_config(),
            final(self).spec_watchdog_running() == old(self).spec_watchdog_running(),
            final(self).spec_metrics_running() == old(self).spec_metrics_running(),
            r.is_ok() == old(self).streams().contains_key(name@),
            r.is_err() ==> r matches Err(DslError::Stream(_)),
            r.is_err() ==> final(self).streams() == old(self).streams() && final(self).states()
                == old(self).states(),
            r.is_ok() ==> final(self).streams() == old(self).streams().remove(name@),
            r.is_ok() ==> final(self).states() == old(self).states().insert(
                name@,
                StreamState::Stopped,
            ),
    {
        match self.streams.remove(name) {
            Some(_) => {
                let s = self.state_machine.transition(name, TransitionCondition::OnStop);
                assert(s == Some(StreamState::Stopped));
                Ok(())
            },
            None => Err(DslError::Stream(String::from_str("Stream not found"))),
        }
    }

    /// The health record of `name`, if it is in the map.
    pub fn get_stream_health(&self, name: &str) -> (r: Option<&StreamHealth>)
        requires
            self.wf(),
        ensures
            r.is_some() == self.streams().contains_key(name@),
            r.is_some() ==> *r.unwrap() == self.streams()[name@].health,
    {
        match self.streams.get(name) {
            Some(info) => Some(&info.health),
            None => None,
        }
    }

    /// The last liveness feed of `name`, if it is in the map.
    pub fn last_activity(&self, name: &str) -> (r: Option<u64>)
        requires
            self.wf(),
        ensures
            r.is_some() == self.streams().contains_key(name@),
            r.is_some() ==> r.unwrap() == self.streams()[name@].last_activity_ms,
    {
        match self.streams.get(name) {
            Some(info) => Some(info.last_activity_ms),
            None => None,
        }
    }

    /// The lifecycle state of `name` (Idle if it never took a transition).
    pub fn get_stream_state(&self, name: &str) -> (r: StreamState)
        requires
            self.wf(),
        ensures
            r == state_in(self.states(), name@),
    {
        self.state_machine.get_state(name)
    }

    /// The ids of all streams in the map, each once.
    pub fn get_all_stream_names(&self) -> (r: Vec<String>)
        requires
            self.wf(),
        ensures
            r@.len() == self.streams().dom().len(),
            forall|i: int| 0 <= i < r@.len() ==> self.streams().contains_key(#[trigger] r@[i]@),
            forall|k: Seq<char>| self.streams().contains_key(k) ==> exists|i: int|
                0 <= i < r@.len() && #[trigger] r@[i]@ == k,
    {
        self.streams.names()
    }

    /// Apply `condition` to `name` in the state table and, for a stream in
    /// the map, to its health record. Illegal transitions change nothing.
    fn apply(&mut self, name: &str, condition: TransitionCondition) -> (r: Option<StreamState>)
        requires
            old(self).wf(),
        ensures
            final(self).wf(),
            final(self).config == old(self).config,
            final(self).watchdog_running == old(self).watchdog_running,
            final(self).metrics_running == old(self).metrics_running,
            r == step(state_in(old(self).states(), name@), condition),
            final(self).streams().dom() == old(self).streams().dom(),
            r.is_none() ==> final(self).streams() == old(self).streams() && final(self).states()
                == old(self).states(),
            r.is_some() ==> final(self).states() == old(self).states().insert(name@, r.unwrap()),
            r.is_some() && old(self).streams().contains_key(name@) ==> final(self).streams()
                == old(self).streams().insert(
                name@,
                StreamInfo {
                    health: StreamHealth { state: r.unwrap(), ..old(self).streams()[name@].health },
                    ..old(self).streams()[name@]
                },
            ),
            r.is_some() && !old(self).streams().contains_key(name@) ==> final(self).streams()
                == old(self).streams(),
    {
        let next = self.state_machine.transition(name, condition);
        match next {
            Some(s) => {
                match self.streams.remove(name) {
                    Some(info) => {
                        let mut info = info;
                        info.health.state = s;
                        self.streams.insert(name, info);
                        proof {
                            assert(self.streams@ =~= old(self).streams@.insert(name@, info));
                        }
                    },
                    None => {
                        assert(self.streams@ =~= old(self).streams@);
                    },
                }
                Some(s)
            },
            None => None,
        }
    }

    /// Move `name` from Recovering back to Running and count the recovery
    /// attempt. Fails with StateTransition when the state forbids it.
    pub fn trigger_recovery(&mut self, name: &str) -> (r: DslResult<()>)
        requires
            old(self).wf(),
        ensures
            final(self).wf(),
            final(self).spec_config() == old(self).spec_config(),
            r.is_ok() == (state_in(old(self).states(), name@) == StreamState::Recovering),
            r.is_err() ==> r matches Err(DslError::StateTransition(_)),
            r.is_err() ==> final(self).streams() == old(self).streams() && final(self).states()
                == old(self).states(),
            r.is_ok() ==> final(self).states() == old(self).states().insert(
                name@,
                StreamState::Running,
            ),
            r.is_ok() && old(self).streams().contains_key(name@) ==> final(self).streams()
                == old(self).streams().insert(
                name@,
                StreamInfo {
                    health: StreamHealth {
                        state: StreamState::Running,
                        recovery_attempts: inc32(old(self).streams()[name@].health.recovery_attempts),
                        ..old(self).streams()[name@].health
                    },
                    ..old(self).streams()[name@]
                },
            ),
            r.is_ok() && !old(self).streams().contains_key(name@) ==> final(self).streams()
                == old(self).streams(),
    {
        match self.state_machine.transition(name, TransitionCondition::OnRecovery) {
            Some(s) => {
                match self.streams.remove(name) {
                    Some(info) => {
                        let mut info = info;
                        info.health.state = s;
                        info.health.recovery_attempts = inc_u32(info.health.recovery_attempts);
                        self.streams.insert(name, info);
                        proof {
                            assert(self.streams@ =~= old(self).streams@.insert(name@, info));
                        }
                    },
                    None => {
                        assert(self.streams@ =~= old(self).streams@);
                    },
                }
                Ok(())
            },
            None => Err(DslError::StateTransition(String::from_str("Cannot recover stream from current state"))),
        }
    }

    /// Reset the watchdog's clock of `name` to `now_ms`, never moving it
    /// backward. Returns whether the stream is in the map.
    pub fn feed(&mut self, name: &str, now_ms: u64) -> (r: bool)
        requires
            old(self).wf(),
        ensures
            final(self).wf(),
            final(self).spec_config() == old(self).spec_config(),
            final(self).spec_watchdog_running() == old(self).spec_watchdog_running(),
            final(self).spec_metrics_running() == old(self).spec_metrics_running(),
            final(self).states() == old(self).states(),
            r == old(self).streams().contains_key(name@),
            r ==> final(self).streams() == old(self).streams().insert(
                name@,
                StreamInfo {
                    last_activity_ms: later(old(self).streams()[name@].last_activity_ms, now_ms),
                    ..old(self).streams()[name@]
                },
            ),
            !r ==> final(self).streams() == old(self).streams(),
    {
        match self.streams.remove(name) {
            Some(info) => {
                let mut info = info;
                if now_ms > info.last_activity_ms {
                    info.last_activity_ms = now_ms;
                }
                self.streams.insert(name, info);
                proof {
                    assert(self.streams@ =~= old(self).streams@.insert(name@, info));
                }
                true
            },
            None => {
                assert(self.streams@ =~= old(self).streams@);
                false
            },
        }
    }

    /// Store fresh metrics for `name` and feed its watchdog clock. Returns
    /// whether the stream is in the map.
    pub fn update_stream_metrics(&mut self, name: &str, metrics: StreamMetrics, now_ms: u64) -> (r: bool)
        requires
            old(self).wf(),
        ensures
            final(self).wf(),
            final(self).spec_config() == old(self).spec_config(),
            final(self).states() == old(self).states(),
            r == old(self).streams().contains_key(name@),
            r ==> final(self).streams() == old(self).streams().insert(
                name@,
                StreamInfo {
                    health: StreamHealth { metrics, ..old(self).streams()[name@].health },
                    last_activity_ms: later(old(self).streams()[name@].last_activity_ms, now_ms),
                },
            ),
            !r ==> final(self).streams() == old(self).streams(),
    {
        match self.streams.remove(name) {
            Some(info) => {
                let mut info = info;
                info.health.metrics = metrics;
                if now_ms > info.last_activity_ms {
                    info.last_activity_ms = now_ms;
                }
                self.streams.insert(name, info);
                proof {
                    assert(self.streams@ =~= old(self).streams@.insert(name@, info));
                }
                true
            },
            None => {
                assert(self.streams@ =~= old(self).streams@);
                false
            },
        }
    }

    /// One watchdog pass at `now_ms`. Every stream silent for longer than
    /// the watchdog timeout gets one more consecutive error, is demoted from
    /// Running to Recovering, and yields one Critical alert; every other
    /// stream is left exactly as it was. With the watchdog disabled in the
    /// configuration nothing changes.
    pub fn watchdog_tick(&mut self, now_ms: u64) -> (r: Vec<HealthAlert>)
        requires
            old(self).wf(),
        ensures
            final(self).wf(),
            final(self).spec_config() == old(self).spec_config(),
            final(self).spec_watchdog_running() == old(self).spec_watchdog_running(),
            final(self).spec_metrics_running() == old(self).spec_metrics_running(),
            final(self).streams().dom() == old(self).streams().dom(),
            !old(self).spec_config().enable_watchdog ==> final(self).streams() == old(self).streams()
                && final(self).states() == old(self).states() && r@.len() == 0,
            old(self).spec_config().enable_watchdog ==> forall|k: Seq<char>|
                #[trigger] old(self).streams().contains_key(k) ==> final(self).streams()[k] == ticked(
                    old(self).streams()[k],
                    now_ms,
                    old(self).spec_config().watchdog_timeout_ms,
                ),
            forall|k: Seq<char>|
                !old(self).streams().contains_key(k) ==> state_in(final(self).states(), k)
                    == #[trigger] state_in(old(self).states(), k),
            forall|a: int|
                0 <= a < r@.len() ==> {
                    &&& (#[trigger] r@[a]).severity == AlertSeverity::Critical
                    &&& r@[a].timestamp_ms == now_ms
                    &&& r@[a].stream.is_some()
                    &&& old(self).streams().contains_key(r@[a].stream.unwrap()@)
                    &&& stalled(
                        old(self).streams()[r@[a].stream.unwrap()@].last_activity_ms,
                        now_ms,
                        old(self).spec_config().watchdog_timeout_ms,
                    )
                },
            old(self).spec_config().enable_watchdog ==> forall|k: Seq<char>|
                #[trigger] old(self).streams().contains_key(k) && stalled(
                    old(self).streams()[k].last_activity_ms,
                    now_ms,
                    old(self).spec_config().watchdog_timeout_ms,
                ) ==> exists|a: int| 0 <= a < r@.len() && r@[a].stream.is_some() && r@[a].stream.unwrap()@ == k,
    {
        let mut alerts: Vec<HealthAlert> = Vec::new();
        if !self.config.enable_watchdog {
            return alerts;
        }
        let timeout = self.config.watchdog_timeout_ms;
        let names = self.streams.names();
        let n = names.len();
        let ghost old_streams = self.streams@;
        let ghost old_states = self.state_machine@;
        let mut i: usize = 0;
        while i < n
            invariant
                self.wf(),
                self.config == old(self).config,
                self.watchdog_running == old(self).watchdog_running,
                self.metrics_running == old(self).metrics_running,
                timeout == self.config.watchdog_timeout_ms,
                self.config.enable_watchdog,
                old_streams == old(self).streams@,
                old_states == old(self).state_machine@,
                n == names@.len(),
                i <= n,
                n == old_streams.dom().len(),
                forall|j: int| 0 <= j < n ==> old_streams.contains_key(#[trigger] names@[j]@),
                forall|j1: int, j2: int| 0 <= j1 < n && 0 <= j2 < n && j1 != j2 ==> names@[j1]@ != names@[j2]@,
                forall|k: Seq<char>| old_streams.contains_key(k) ==> exists|j: int| 0 <= j < n && #[trigger] names@[j]@ == k,
                self.streams@.dom() == old_streams.dom(),
                forall|j: int| 0 <= j < i ==> self.streams@[#[trigger] names@[j]@] == ticked(old_streams[names@[j]@], now_ms, timeout),
                forall|j: int| i <= j < n ==> self.streams@[#[trigger] names@[j]@] == old_streams[names@[j]@],
                forall|k: Seq<char>| !old_streams.contains_key(k) ==> state_in(self.state_machine@, k) == #[trigger] state_in(old_states, k),
                forall|a: int|
                    0 <= a < alerts@.len() ==> {
                        &&& (#[trigger] alerts@[a]).severity == AlertSeverity::Critical
                        &&& alerts@[a].timestamp_ms == now_ms
                        &&& alerts@[a].stream.is_some()
                        &&& old_streams.contains_key(alerts@[a].stream.unwrap()@)
                        &&& stalled(old_streams[alerts@[a].stream.unwrap()@].last_activity_ms, now_ms, timeout)
                    },
                forall|j: int| 0 <= j < i && stalled(old_streams[#[trigger] names@[j]@].last_activity_ms, now_ms, timeout)
                    ==> exists|a: int| 0 <= a < alerts@.len() && alerts@[a].stream.is_some() && alerts@[a].stream.unwrap()@ == names@[j]@,
            decreases n - i,
        {
            let name = &names[i];
            let ghost before_streams = self.streams@;
            let ghost before_states = self.state_machine@;
            let ghost before_alerts = alerts@;
            let info = self.streams.remove(name.as_str());
            assert(info.is_some());
            let mut info = info.unwrap();
            assert(info == old_streams[name@]);
            if now_ms > info.last_activity_ms && now_ms - info.last_activity_ms > timeout {
                info.health.consecutive_errors = inc_u32(info.health.consecutive_errors);
                if info.health.state == StreamState::Running {
                    let s = self.state_machine.transition(name.as_str(), TransitionCondition::OnError);
                    assert(s == Some(StreamState::Recovering));
                    info.health.state = StreamState::Recovering;
                }
                alerts.push(HealthAlert {
                    timestamp_ms: now_ms,
                    severity: AlertSeverity::Critical,
                    stream: Some(name.clone()),
                    message: String::from_str("Watchdog timeout: no activity"),
                });
                proof {
                    let a = (alerts@.len() - 1) as int;
                    assert(alerts@[a].stream.unwrap()@ == name@);
                    assert forall|a2: int| 0 <= a2 < before_alerts.len() implies alerts@[a2] == before_alerts[a2] by {}
                }
            }
            self.streams.insert(name.as_str(), info);
            proof {
                assert(self.streams@ == before_streams.insert(name@, info));
                assert(info == ticked(old_streams[name@], now_ms, timeout));
                assert forall|j: int| 0 <= j < i + 1 implies self.streams@[#[trigger] names@[j]@] == ticked(old_streams[names@[j]@], now_ms, timeout) by {
                    if j < i {
                        assert(names@[j]@ != name@);
                    }
                }
                assert forall|j: int| i + 1 <= j < n implies self.streams@[#[trigger] names@[j]@] == old_streams[names@[j]@] by {
                    assert(names@[j]@ != name@);
                }
                assert(self.streams@.dom() =~= old_streams.dom());
                assert forall|j: int| 0 <= j < i + 1 && stalled(old_streams[#[trigger] names@[j]@].last_activity_ms, now_ms, timeout)
                    implies exists|a: int| 0 <= a < alerts@.len() && alerts@[a].stream.is_some() && alerts@[a].stream.unwrap()@ == names@[j]@ by {
                    if j < i {
                        let a = choose|a: int| 0 <= a < before_alerts.len() && before_alerts[a].stream.is_some() && before_alerts[a].stream.unwrap()@ == names@[j]@;
                        assert(alerts@[a] == before_alerts[a]);
                    } else {
                        let a = (alerts@.len() - 1) as int;
                        assert(alerts@[a].stream.unwrap()@ == name@);
                    }
                }
            }
            i = i + 1;
        }
        proof {
            assert forall|k: Seq<char>| #[trigger] old_streams.contains_key(k) implies self.streams@[k] == ticked(old_streams[k], now_ms, timeout) by {
                let j = choose|j: int| 0 <= j < n && #[trigger] names@[j]@ == k;
                assert(self.streams@[names@[j]@] == ticked(old_streams[names@[j]@], now_ms, timeout));
            }
            assert forall|k: Seq<char>| #[trigger] old_streams.contains_key(k) && stalled(old_streams[k].last_activity_ms, now_ms, timeout)
                implies exists|a: int| 0 <= a < alerts@.len() && alerts@[a].stream.is_some() && alerts@[a].stream.unwrap()@ == k by {
                let j = choose|j: int| 0 <= j < n && #[trigger] names@[j]@ == k;
                assert(stalled(old_streams[names@[j]@].last_activity_ms, now_ms, timeout));
            }
        }
        alerts
    }

    /// Apply `condition` to every stream whose state is `from` (to every
    /// stream when `from` is `None`) where the transition is legal; leave the
    /// others as they are.
    fn transition_all(&mut self, from: Option<StreamState>, condition: TransitionCondition)
        requires
            old(self).wf(),
        ensures
            final(self).wf(),
            final(self).config == old(self).config,
            final(self).watchdog_running == old(self).watchdog_running,
            final(self).metrics_running == old(self).metrics_running,
            final(self).streams().dom() == old(self).streams().dom(),
            forall|k: Seq<char>|
                #[trigger] old(self).streams().contains_key(k) ==> final(self).streams()[k] == moved(
                    old(self).streams()[k],
                    from,
                    condition,
                ),
            forall|k: Seq<char>|
                !old(self).streams().contains_key(k) ==> state_in(final(self).states(), k)
                    == #[trigger] state_in(old(self).states(), k),
    {
        let names = self.streams.names();
        let n = names.len();
        let ghost old_streams = self.streams@;
        let ghost old_states = self.state_machine@;
        let mut i: usize = 0;
        while i < n
            invariant
                self.wf(),
                self.config == old(self).config,
                self.watchdog_running == old(self).watchdog_running,
                self.metrics_running == old(self).metrics_running,
                old_streams == old(self).streams@,
                old_states == old(self).state_machine@,
                n == names@.len(),
                i <= n,
                forall|j: int| 0 <= j < n ==> old_streams.contains_key(#[trigger] names@[j]@),
                forall|j1: int, j2: int| 0 <= j1 < n && 0 <= j2 < n && j1 != j2 ==> names@[j1]@ != names@[j2]@,
                forall|k: Seq<char>| old_streams.contains_key(k) ==> exists|j: int| 0 <= j < n && #[trigger] names@[j]@ == k,
                self.streams@.dom() == old_streams.dom(),
                forall|j: int| 0 <= j < i ==> self.streams@[#[trigger] names@[j]@] == moved(old_streams[names@[j]@], from, condition),
                forall|j: int| i <= j < n ==> self.streams@[#[trigger] names@[j]@] == old_streams[names@[j]@],
                forall|k: Seq<char>| !old_streams.contains_key(k) ==> state_in(self.state_machine@, k) == #[trigger] state_in(old_states, k),
            decreases n - i,
        {
            let name = &names[i];
            let ghost before_streams = self.streams@;
            let info = self.streams.remove(name.as_str());
            assert(info.is_some());
            let mut info = info.unwrap();
            assert(info == old_streams[name@]);
            let selected = match from {
                Some(f) => info.health.state == f,
                None => true,
            };
            if selected {
                match info.health.state.next_state(condition) {
                    Some(_) => {
                        let s = self.state_machine.transition(name.as_str(), condition);
                        info.health.state = s.unwrap();
                    },
                    None => {},
                }
            }
            self.streams.insert(name.as_str(), info);
            proof {
                assert(self.streams@ == before_streams.insert(name@, info));
                assert(info == moved(old_streams[name@], from, condition));
                assert forall|j: int| 0 <= j < i + 1 implies self.streams@[#[trigger] names@[j]@] == moved(old_streams[names@[j]@], from, condition) by {
                    if j < i {
                        assert(names@[j]@ != name@);
                    }
                }
                assert forall|j: int| i + 1 <= j < n implies self.streams@[#[trigger] names@[j]@] == old_streams[names@[j]@] by {
                    assert(names@[j]@ != name@);
                }
                assert(self.streams@.dom() =~= old_streams.dom());
            }
            i = i + 1;
        }
        proof {
            assert forall|k: Seq<char>| #[trigger] old_streams.contains_key(k) implies self.streams@[k] == moved(old_streams[k], from, condition) by {
                let j = choose|j: int| 0 <= j < n && #[trigger] names@[j]@ == k;
                assert(self.streams@[names@[j]@] == moved(old_streams[names@[j]@], from, condition));
            }
        }
    }

    /// Start the watchdog and the metrics collector, each if the
    /// configuration enables it.
    pub fn start(&mut self) -> (r: DslResult<()>)
        requires
            old(self).wf(),
        ensures
            final(self).wf(),
            r.is_ok(),
            final(self).spec_config() == old(self).spec_config(),
            final(self).streams() == old(self).streams(),
            final(self).states() == old(self).states(),
            final(self).spec_watchdog_running() == old(self).spec_config().enable_watchdog,
            final(self).spec_metrics_running() == old(self).spec_config().enable_metrics,
    {
        self.watchdog_running = self.config.enable_watchdog;
        self.metrics_running = self.config.enable_metrics;
        Ok(())
    }

    /// Stop the collectors and move every stream to Stopped.
    pub fn stop(&mut self) -> (r: DslResult<()>)
        requires
            old(self).wf(),
        ensures
            final(self).wf(),
            r.is_ok(),
            final(self).spec_config() == old(self).spec_config(),
            !final(self).spec_watchdog_running(),
            !final(self).spec_metrics_running(),
            final(self).streams().dom() == old(self).streams().dom(),
            forall|k: Seq<char>|
                #[trigger] old(self).streams().contains_key(k) ==> final(self).streams()[k] == set_state(
                    old(self).streams()[k],
                    StreamState::Stopped,
                ),
    {
        self.watchdog_running = false;
        self.metrics_running = false;
        self.transition_all(None, TransitionCondition::OnStop);
        Ok(())
    }

    /// Pause every running stream.
    pub fn pause(&mut self) -> (r: DslResult<()>)
        requires
            old(self).wf(),
        ensures
            final(self).wf(),
            r.is_ok(),
            final(self).spec_config() == old(self).spec_config(),
            final(self).spec_watchdog_running() == old(self).spec_watchdog_running(),
            final(self).spec_metrics_running() == old(self).spec_metrics_running(),
            final(self).streams().dom() == old(self).streams().dom(),
            forall|k: Seq<char>|
                #[trigger] old(self).streams().contains_key(k) ==> final(self).streams()[k] == moved(
                    old(self).streams()[k],
                    Some(StreamState::Running),
                    TransitionCondition::OnSuccess,
                ),
    {
        self.transition_all(Some(StreamState::Running), TransitionCondition::OnSuccess);
        Ok(())
    }

    /// Resume every paused stream.
    pub fn resume(&mut self) -> (r: DslResult<()>)
        requires
            old(self).wf(),
        ensures
            final(self).wf(),
            r.is_ok(),
            final(self).spec_config() == old(self).spec_config(),
            final(self).spec_watchdog_running() == old(self).spec_watchdog_running(),
            final(self).spec_metrics_running() == old(self).spec_metrics_running(),
            final(self).streams().dom() == old(self).streams().dom(),
            forall|k: Seq<char>|
                #[trigger] old(self).streams().contains_key(k) ==> final(self).streams()[k] == moved(
                    old(self).streams()[k],
                    Some(StreamState::Paused),
                    TransitionCondition::OnSuccess,
                ),
    {
        self.transition_all(Some(StreamState::Paused), TransitionCondition::OnSuccess);
        Ok(())
    }

    /// Apply `condition` to the stream `name`. Fails with Stream when the
    /// name is not in the map, and with StateTransition (changing nothing)
    /// when the transition is illegal from its state.
    pub fn transition_stream(&mut self, name: &str, condition: TransitionCondition) -> (r: DslResult<StreamState>)
        requires
            old(self).wf(),
        ensures
            final(self).wf(),
            final(self).spec_config() == old(self).spec_config(),
            final(self).spec_watchdog_running() == old(self).spec_watchdog_running(),
            final(self).spec_metrics_running() == old(self).spec_metrics_running(),
            !old(self).streams().contains_key(name@) ==> r matches Err(DslError::Stream(_)),
            old(self).streams().contains_key(name@) && step(old(self).streams()[name@].health.state, condition).is_none()
                ==> r matches Err(DslError::StateTransition(_)),
            r.is_err() ==> final(self).streams() == old(self).streams() && final(self).states() == old(self).states(),
            r.is_ok() == (old(self).streams().contains_key(name@) && step(old(self).streams()[name@].health.state, condition).is_some()),
            r.is_ok() ==> {
                let s = step(old(self).streams()[name@].health.state, condition).unwrap();
                &&& r == Ok::<StreamState, DslError>(s)
                &&& final(self).streams() == old(self).streams().insert(name@, set_state(old(self).streams()[name@], s))
                &&& final(self).states() == old(self).states().insert(name@, s)
            },
    {
        if !self.streams.contains(name) {
            return Err(DslError::Stream(String::from_str("Stream not found")));
        }
        match self.apply(name, condition) {
            Some(s) => Ok(s),
            None => Err(DslError::StateTransition(String::from_str("Transition not allowed from current state"))),
        }
    }

    /// Record `error` as the latest error of `name` and count it as one more
    /// consecutive error. Returns whether the stream is in the map.
    pub fn record_error(&mut self, name: &str, error: DslError) -> (r: bool)
        requires
            old(self).wf(),
        ensures
            final(self).wf(),
            final(self).spec_config() == old(self).spec_config(),
            final(self).spec_watchdog_running() == old(self).spec_watchdog_running(),
            final(self).spec_metrics_running() == old(self).spec_metrics_running(),
            final(self).states() == old(self).states(),
            r == old(self).streams().contains_key(name@),
            r ==> final(self).streams() == old(self).streams().insert(
                name@,
                StreamInfo {
                    health: StreamHealth {
                        last_error: Some(error),
                        consecutive_errors: inc32(old(self).streams()[name@].health.consecutive_errors),
                        ..old(self).streams()[name@].health
                    },
                    ..old(self).streams()[name@]
                },
            ),
            !r ==> final(self).streams() == old(self).streams(),
    {
        match self.streams.remove(name) {
            Some(info) => {
                let mut info = info;
                info.health.last_error = Some(error);
                info.health.consecutive_errors = inc_u32(info.health.consecutive_errors);
                self.streams.insert(name, info);
                proof {
                    assert(self.streams@ =~= old(self).streams@.insert(name@, info));
                }
                true
            },
            None => {
                assert(self.streams@ =~= old(self).streams@);
                false
            },
        }
    }

    /// The id of a stream that owns the element named `element`, if any.
    pub fn stream_for_element(&self, element: &str) -> (r: Option<String>)
        requires
            self.wf(),
        ensures
            r.is_some() ==> self.streams().contains_key(r.unwrap()@) && owns_element(r.unwrap()@, element@),
            r.is_none() ==> forall|k: Seq<char>| #[trigger] self.streams().contains_key(k) ==> !owns_element(k, element@),
    {
        let names = self.streams.names();
        let n = names.len();
        let mut i: usize = 0;
        while i < n
            invariant
                self.wf(),
                n == names@.len(),
                i <= n,
                forall|j: int| 0 <= j < n ==> self.streams@.contains_key(#[trigger] names@[j]@),
                forall|k: Seq<char>| self.streams@.contains_key(k) ==> exists|j: int| 0 <= j < n && #[trigger] names@[j]@ == k,
                forall|j: int| 0 <= j < i ==> !owns_element(#[trigger] names@[j]@, element@),
            decreases n - i,
        {
            if element_belongs_to(names[i].as_str(), element) {
                return Some(names[i].clone());
            }
            i = i + 1;
        }
        proof {
            assert forall|k: Seq<char>| #[trigger] self.streams@.contains_key(k) implies !owns_element(k, element@) by {
                let j = choose|j: int| 0 <= j < n && #[trigger] names@[j]@ == k;
                assert(!owns_element(names@[j]@, element@));
            }
        }
        None
    }

    /// React to a bus message at `now_ms`. An error from a stream's element
    /// records the error (as a framework error), moves a running stream to
    /// Recovering and asks the caller to run recovery; stream-status
    /// messages feed the owning stream's watchdog clock; the other kinds
    /// change nothing.
    pub fn handle_bus_event(&mut self, event: BusEvent, now_ms: u64) -> (r: BusReaction)
        requires
            old(self).wf(),
        ensures
            final(self).wf(),
            final(self).spec_config() == old(self).spec_config(),
            final(self).streams().dom() == old(self).streams().dom(),
            (r matches BusReaction::Recover(id) ==> {
                &&& old(self).streams().contains_key(id@)
                &&& (event matches BusEvent::Error { element, .. } && owns_element(id@, element@))
                &&& final(self).streams()[id@].health.state == if old(self).streams()[id@].health.state == StreamState::Running {
                    StreamState::Recovering
                } else {
                    old(self).streams()[id@].health.state
                }
                &&& final(self).streams()[id@].health.consecutive_errors == inc32(old(self).streams()[id@].health.consecutive_errors)
            }),
            (event matches BusEvent::Error { .. }) ==> (r matches BusReaction::Recover(_)) || (r matches BusReaction::Unowned),
            event matches BusEvent::Error { element, .. } ==> (has_owner(old(self).streams(), element@) == (r matches BusReaction::Recover(_))),
            event matches BusEvent::StreamStatus { element } ==> ((r matches BusReaction::Fed(_))
                && has_owner(old(self).streams(), element@) == (r matches BusReaction::Fed(Some(_)))),
            event matches BusEvent::Eos { element } ==> ((r matches BusReaction::EndOfStream(_))
                && has_owner(old(self).streams(), element@) == (r matches BusReaction::EndOfStream(Some(_)))),
            r matches BusReaction::EndOfStream(Some(id)) ==> (old(self).streams().contains_key(id@) && (event matches BusEvent::Eos { element } && owns_element(id@, element@))),
            (event matches BusEvent::Warning { .. }) ==> (r matches BusReaction::Log),
            (event matches BusEvent::StateChanged { .. }) ==> (r matches BusReaction::Nothing),
            (r matches BusReaction::Unowned) ==> final(self).streams() == old(self).streams(),
            !(event matches BusEvent::Error { .. }) && !(event matches BusEvent::StreamStatus { .. }) ==> final(self).streams() == old(self).streams()
                && final(self).states() == old(self).states(),
            r matches BusReaction::Fed(Some(id)) ==> (old(self).streams().contains_key(id@) && final(self).streams()
                == old(self).streams().insert(
                id@,
                StreamInfo { last_activity_ms: later(old(self).streams()[id@].last_activity_ms, now_ms), ..old(self).streams()[id@] },
            )),
            (r matches BusReaction::Fed(None)) ==> final(self).streams() == old(self).streams(),
    {
        match event {
            BusEvent::Error { element, message } => {
                match self.stream_for_element(element.as_str()) {
                    Some(id) => {
                        let ghost info0 = self.streams@[id@];
                        let running = match self.streams.get(id.as_str()) {
                            Some(info) => info.health.state == StreamState::Running,
                            None => false,
                        };
                        self.record_error(id.as_str(), DslError::GStreamer(message));
                        if running {
                            let _ = self.transition_stream(id.as_str(), TransitionCondition::OnError);
                        }
                        BusReaction::Recover(id)
                    },
                    None => BusReaction::Unowned,
                }
            },
            BusEvent::Warning { .. } => BusReaction::Log,
            BusEvent::Eos { element } => BusReaction::EndOfStream(self.stream_for_element(element.as_str())),
            BusEvent::StateChanged { .. } => BusReaction::Nothing,
            BusEvent::StreamStatus { element } => {
                match self.stream_for_element(element.as_str()) {
                    Some(id) => {
                        self.feed(id.as_str(), now_ms);
                        BusReaction::Fed(Some(id))
                    },
                    None => BusReaction::Fed(None),
                }
            },
        }
    }
}

} // verus!
