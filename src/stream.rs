//! The stream supervisor: admits sources as streams with fresh ids, attaches
//! sinks, and drives each stream's lifecycle around connects, pauses and
//! errors. The caller builds the subgraph and runs the source and sink
//! operations; this type records the outcome and decides the next state.
use vstd::prelude::*;
use vstd::string::*;

use crate::error::{DslError, DslResult};
use crate::model::{RecoveryAction, StreamHealth, StreamState};
use crate::pipeline::{inc32, set_state, RobustPipeline, StreamInfo};
use crate::state_machine::{state_in, TransitionCondition};
use crate::shared_map::{new_sink_map, sink_entries, sink_map_insert, sink_map_remove};
use dashmap::DashMap;

verus! {

/// Size limits and drop policy of a stream's decoupling queues.
#[derive(Debug, Clone, Copy, PartialEq, Eq, Structural)]
pub struct QueueConfig {
    pub max_size_buffers: u32,
    pub max_size_bytes: u32,
    /// Nanoseconds.
    pub max_size_time: u64,
    pub min_threshold_buffers: u32,
    /// Drop the oldest data when full instead of blocking upstream.
    pub leaky: bool,
}

impl Default for QueueConfig {
    /// 200 buffers, 10 MiB, one second, threshold 10, leaky.
    fn default() -> (r: QueueConfig)
        ensures
            r == (QueueConfig {
                max_size_buffers: 200,
                max_size_bytes: 10485760,
                max_size_time: 1000000000,
                min_threshold_buffers: 10,
                leaky: true,
            }),
    {
        QueueConfig {
            max_size_buffers: 200,
            max_size_bytes: 10485760,
            max_size_time: 1000000000,
            min_threshold_buffers: 10,
            leaky: true,
        }
    }
}

/// Settings of one stream.
#[derive(Debug, Clone)]
pub struct StreamConfig {
    pub name: String,
    pub buffer_size: usize,
    /// Milliseconds.
    pub max_latency: Option<u64>,
    pub enable_isolation: bool,
    pub queue_properties: QueueConfig,
}

impl Default for StreamConfig {
    /// Named "stream", 100 buffers, 1000 ms latency, isolated, default queues.
    fn default() -> (r: StreamConfig)
        ensures
            r.name@ == "stream"@,
            r.buffer_size == 100,
            r.max_latency == Some(1000u64),
            r.enable_isolation,
            r.queue_properties == QueueConfig::default_spec(),
    {
        StreamConfig {
            name: String::from_str("stream"),
            buffer_size: 100,
            max_latency: Some(1000),
            enable_isolation: true,
            queue_properties: QueueConfig::default(),
        }
    }
}

impl QueueConfig {
    pub open spec fn default_spec() -> QueueConfig {
        QueueConfig {
            max_size_buffers: 200,
            max_size_bytes: 10485760,
            max_size_time: 1000000000,
            min_threshold_buffers: 10,
            leaky: true,
        }
    }
}

/// Relies on `uuid::Uuid::new_v4` and the `Display` of `Uuid`: a fresh
/// random UUID in its hyphenated form, which is 36 characters long.
#[verifier::external_body]
fn fresh_uuid() -> (r: String)
    ensures
        r@.len() == 36,
{
    uuid::Uuid::new_v4().to_string()
}

/// `name`, an underscore, then `unique`.
pub fn compose_stream_id(name: &str, unique: &str) -> (r: String)
    ensures
        r@ == name@ + "_"@ + unique@,
{
    let mut r = String::from_str(name);
    r.append("_");
    r.append(unique);
    r
}

/// `stream_id`, a colon, then `sink_name`: the key of a sink.
pub fn sink_key(stream_id: &str, sink_name: &str) -> (r: String)
    ensures
        r@ == stream_id@ + ":"@ + sink_name@,
{
    let mut r = String::from_str(stream_id);
    r.append(":");
    r.append(sink_name);
    r
}

/// At this many consecutive errors a stream is given up as Failed.
pub const STREAM_ERROR_LIMIT: u32 = 5;

/// The state a stream is driven to when it is given up: Running and
/// Recovering go to Failed through Recovering, Starting fails directly, and
/// the other states stay.
pub open spec fn given_up(s: StreamState) -> StreamState {
    match s {
        StreamState::Running => StreamState::Failed,
        StreamState::Recovering => StreamState::Failed,
        StreamState::Starting => StreamState::Failed,
        _ => s,
    }
}

/// The state after an error that is still within the error budget:
/// Running goes to Recovering, Starting to Failed, others stay.
pub open spec fn after_error(s: StreamState) -> StreamState {
    match s {
        StreamState::Running => StreamState::Recovering,
        StreamState::Starting => StreamState::Failed,
        _ => s,
    }
}

pub struct StreamManager {
    pipeline: RobustPipeline,
    /// Sink key to the id of the stream it is attached to.
    sinks: DashMap<String, String>,
}

impl StreamManager {
    pub closed spec fn pipeline(&self) -> RobustPipeline {
        self.pipeline
    }

    /// Sink keys and the stream each belongs to.
    pub closed spec fn sinks(&self) -> Map<Seq<char>, Seq<char>> {
        sink_entries(self.sinks)
    }

    pub closed spec fn wf(&self) -> bool {
        self.pipeline.wf()
    }

    /// A well-formed supervisor has a well-formed controller, whose stream
    /// map is finite.
    pub proof fn lemma_wf_parts(&self)
        requires
            self.wf(),
        ensures
            self.pipeline().wf(),
            self.pipeline().streams().dom().finite(),
    {
        self.pipeline.lemma_streams_finite();
    }

    /// A supervisor over `pipeline`, with no sinks.
    pub fn new(pipeline: RobustPipeline) -> (r: StreamManager)
        requires
            pipeline.wf(),
        ensures
            r.wf(),
            r.pipeline() == pipeline,
            r.sinks() == Map::<Seq<char>, Seq<char>>::empty(),
    {
        let r = StreamManager { pipeline, sinks: new_sink_map() };
        assert(r.sinks() =~= Map::<Seq<char>, Seq<char>>::empty());
        r
    }

    /// The controller underneath.
    pub fn pipeline_ref(&self) -> (r: &RobustPipeline)
        ensures
            *r == self.pipeline(),
    {
        &self.pipeline
    }

    /// The controller underneath, for its own operations (watchdog ticks,
    /// bus messages, metrics updates); the sinks stay as they are.
    pub fn pipeline_mut(&mut self) -> (r: &mut RobustPipeline)
        requires
            old(self).wf(),
        ensures
            *r == old(self).pipeline(),
            r.wf(),
            final(self).pipeline() == *final(r),
            final(self).sinks() == old(self).sinks(),
            final(r).wf() ==> final(self).wf(),
    {
        &mut self.pipeline
    }

    /// Admit a new stream for a source configured by `config`, at `now_ms`.
    /// Its id is the configured name, an underscore and a fresh UUID; it
    /// enters the stream map in Starting. Fails with ResourceExhaustion when
    /// the pipeline is full, and with Pipeline only if the fresh id is
    /// already taken. The caller then connects the source and reports
    /// with `source_connected` or `source_failed`.
    pub fn add_source(&mut self, config: &StreamConfig, now_ms: u64) -> (r: DslResult<String>)
        requires
            old(self).wf(),
        ensures
            final(self).wf(),
            final(self).sinks() == old(self).sinks(),
            final(self).pipeline().spec_config() == old(self).pipeline().spec_config(),
            old(self).pipeline().streams().dom().len() >= old(self).pipeline().spec_config().max_streams
                ==> r matches Err(DslError::ResourceExhaustion(_)),
            old(self).pipeline().streams().dom().len() < old(self).pipeline().spec_config().max_streams
                ==> r.is_ok() || (r matches Err(DslError::Pipeline(_))),
            (r matches Err(DslError::ResourceExhaustion(_))) ==> old(self).pipeline().streams().dom().len()
                >= old(self).pipeline().spec_config().max_streams,
            (r matches Err(DslError::Pipeline(_))) ==> exists|u: Seq<char>|
                u.len() == 36 && old(self).pipeline().streams().contains_key(#[trigger] (config.name@ + "_"@ + u)),
            r.is_err() ==> (r matches Err(DslError::ResourceExhaustion(_))) || (r matches Err(DslError::Pipeline(_))),
            r.is_err() ==> final(self).pipeline().streams() == old(self).pipeline().streams(),
            r matches Ok(id) ==> {
                &&& exists|u: Seq<char>| u.len() == 36 && id@ == config.name@ + "_"@ + u
                &&& !old(self).pipeline().streams().contains_key(id@)
                &&& final(self).pipeline().streams().dom() == old(self).pipeline().streams().dom().insert(id@)
                &&& final(self).pipeline().streams()[id@].health.state == StreamState::Starting
                &&& final(self).pipeline().streams()[id@].health.consecutive_errors == 0
                &&& final(self).pipeline().states()[id@] == StreamState::Starting
                &&& forall|k: Seq<char>| k != id@ ==> #[trigger] final(self).pipeline().streams().contains_key(k)
                    ==> final(self).pipeline().streams()[k] == old(self).pipeline().streams()[k]
            },
    {
        if self.pipeline.stream_count() >= self.pipeline.config().max_streams {
            return Err(DslError::ResourceExhaustion(String::from_str("Maximum streams reached")));
        }
        let unique = fresh_uuid();
        let id = compose_stream_id(config.name.as_str(), unique.as_str());
        match self.pipeline.add_stream(id.as_str(), now_ms) {
            Ok(()) => Ok(id),
            Err(e) => {
                assert(old(self).pipeline().streams().contains_key(config.name@ + "_"@ + unique@));
                Err(e)
            },
        }
    }

    /// The source of `stream_id` connected: Starting becomes Running.
    /// Fails with Stream for an unknown id and with StateTransition when the
    /// stream is not Starting.
    pub fn source_connected(&mut self, stream_id: &str) -> (r: DslResult<()>)
        requires
            old(self).wf(),
        ensures
            final(self).wf(),
            final(self).sinks() == old(self).sinks(),
            !old(self).pipeline().streams().contains_key(stream_id@) ==> r matches Err(DslError::Stream(_)),
            r.is_ok() == (old(self).pipeline().streams().contains_key(stream_id@)
                && old(self).pipeline().streams()[stream_id@].health.state == StreamState::Starting),
            r.is_ok() ==> final(self).pipeline().streams() == old(self).pipeline().streams().insert(
                stream_id@,
                set_state(old(self).pipeline().streams()[stream_id@], StreamState::Running),
            ),
            r.is_err() ==> final(self).pipeline().streams() == old(self).pipeline().streams(),
    {
        match self.pipeline.get_stream_health(stream_id) {
            None => return Err(DslError::Stream(String::from_str("Stream not found"))),
            Some(h) => {
                if h.state != StreamState::Starting {
                    return Err(DslError::StateTransition(String::from_str("Stream is not starting")));
                }
            },
        }
        match self.pipeline.transition_stream(stream_id, TransitionCondition::OnSuccess) {
            Ok(_) => Ok(()),
            Err(e) => Err(e),
        }
    }

    /// The source of `stream_id` failed to connect: Starting becomes Failed.
    /// Fails with Stream for an unknown id and with StateTransition when the
    /// stream is not Starting.
    pub fn source_failed(&mut self, stream_id: &str) -> (r: DslResult<()>)
        requires
            old(self).wf(),
        ensures
            final(self).wf(),
            final(self).sinks() == old(self).sinks(),
            !old(self).pipeline().streams().contains_key(stream_id@) ==> r matches Err(DslError::Stream(_)),
            r.is_ok() == (old(self).pipeline().streams().contains_key(stream_id@)
                && old(self).pipeline().streams()[stream_id@].health.state == StreamState::Starting),
            r.is_ok() ==> final(self).pipeline().streams() == old(self).pipeline().streams().insert(
                stream_id@,
                set_state(old(self).pipeline().streams()[stream_id@], StreamState::Failed),
            ),
            r.is_err() ==> final(self).pipeline().streams() == old(self).pipeline().streams(),
    {
        match self.pipeline.get_stream_health(stream_id) {
            None => return Err(DslError::Stream(String::from_str("Stream not found"))),
            Some(h) => {
                if h.state != StreamState::Starting {
                    return Err(DslError::StateTransition(String::from_str("Stream is not starting")));
                }
            },
        }
        match self.pipeline.transition_stream(stream_id, TransitionCondition::OnError) {
            Ok(_) => Ok(()),
            Err(e) => Err(e),
        }
    }

    /// Remove the stream `stream_id`: it leaves the stream map and is
    /// recorded as Stopped. Fails with Stream for an unknown id.
    pub fn remove_source(&mut self, stream_id: &str) -> (r: DslResult<()>)
        requires
            old(self).wf(),
        ensures
            final(self).wf(),
            final(self).sinks() == old(self).sinks(),
            r.is_ok() == old(self).pipeline().streams().contains_key(stream_id@),
            r.is_err() ==> r matches Err(DslError::Stream(_)),
            r.is_err() ==> final(self).pipeline().streams() == old(self).pipeline().streams(),
            r.is_ok() ==> final(self).pipeline().streams() == old(self).pipeline().streams().remove(stream_id@),
            r.is_ok() ==> state_in(final(self).pipeline().states(), stream_id@) == StreamState::Stopped,
    {
        self.pipeline.remove_stream(stream_id)
    }

    /// Attach the sink `sink_name` to `stream_id`, under the key
    /// `<stream_id>:<sink_name>`, which is returned. Fails with Stream for an
    /// unknown id.
    pub fn add_sink(&mut self, stream_id: &str, sink_name: &str) -> (r: DslResult<String>)
        requires
            old(self).wf(),
        ensures
            final(self).wf(),
            final(self).pipeline() == old(self).pipeline(),
            r.is_ok() == old(self).pipeline().streams().contains_key(stream_id@),
            r.is_err() ==> r matches Err(DslError::Stream(_)),
            r.is_err() ==> final(self).sinks() == old(self).sinks(),
            r matches Ok(key) ==> key@ == stream_id@ + ":"@ + sink_name@ && final(self).sinks()
                == old(self).sinks().insert(key@, stream_id@),
    {
        if !self.pipeline.get_stream_health(stream_id).is_some() {
            return Err(DslError::Stream(String::from_str("Stream not found")));
        }
        let key = sink_key(stream_id, sink_name);
        sink_map_insert(&mut self.sinks, key.as_str(), stream_id);
        Ok(key)
    }

    /// Detach the sink with key `sink_key` if it is attached.
    pub fn remove_sink(&mut self, sink_key: &str) -> (r: DslResult<()>)
        requires
            old(self).wf(),
        ensures
            final(self).wf(),
            r.is_ok(),
            final(self).pipeline() == old(self).pipeline(),
            final(self).sinks() == old(self).sinks().remove(sink_key@),
    {
        let _ = sink_map_remove(&mut self.sinks, sink_key);
        Ok(())
    }

    /// The ids of all streams, each once.
    pub fn list_streams(&self) -> (r: Vec<String>)
        requires
            self.wf(),
        ensures
            r@.len() == self.pipeline().streams().dom().len(),
            forall|i: int| 0 <= i < r@.len() ==> self.pipeline().streams().contains_key(#[trigger] r@[i]@),
            forall|k: Seq<char>| self.pipeline().streams().contains_key(k) ==> exists|i: int|
                0 <= i < r@.len() && #[trigger] r@[i]@ == k,
    {
        self.pipeline.get_all_stream_names()
    }

    /// The health record of `stream_id`, if it is in the map.
    pub fn get_stream_health(&self, stream_id: &str) -> (r: Option<&StreamHealth>)
        requires
            self.wf(),
        ensures
            r.is_some() == self.pipeline().streams().contains_key(stream_id@),
            r.is_some() ==> *r.unwrap() == self.pipeline().streams()[stream_id@].health,
    {
        self.pipeline.get_stream_health(stream_id)
    }

    /// The lifecycle state of `stream_id`, if it is in the map.
    pub fn get_stream_state(&self, stream_id: &str) -> (r: Option<StreamState>)
        requires
            self.wf(),
        ensures
            r.is_some() == self.pipeline().streams().contains_key(stream_id@),
            r.is_some() ==> r.unwrap() == self.pipeline().streams()[stream_id@].health.state,
    {
        match self.pipeline.get_stream_health(stream_id) {
            Some(h) => Some(h.state),
            None => None,
        }
    }

    /// Pause a running stream. Fails with Stream for an unknown id and with
    /// StateTransition when the stream is not Running.
    pub fn pause_stream(&mut self, stream_id: &str) -> (r: DslResult<()>)
        requires
            old(self).wf(),
        ensures
            final(self).wf(),
            final(self).sinks() == old(self).sinks(),
            !old(self).pipeline().streams().contains_key(stream_id@) ==> r matches Err(DslError::Stream(_)),
            r.is_ok() == (old(self).pipeline().streams().contains_key(stream_id@)
                && old(self).pipeline().streams()[stream_id@].health.state == StreamState::Running),
            r.is_ok() ==> final(self).pipeline().streams() == old(self).pipeline().streams().insert(
                stream_id@,
                set_state(old(self).pipeline().streams()[stream_id@], StreamState::Paused),
            ),
            r.is_err() ==> final(self).pipeline().streams() == old(self).pipeline().streams(),
    {
        match self.pipeline.get_stream_health(stream_id) {
            None => return Err(DslError::Stream(String::from_str("Stream not found"))),
            Some(h) => {
                if h.state != StreamState::Running {
                    return Err(DslError::StateTransition(String::from_str("Only a running stream can pause")));
                }
            },
        }
        match self.pipeline.transition_stream(stream_id, TransitionCondition::OnSuccess) {
            Ok(_) => Ok(()),
            Err(e) => Err(e),
        }
    }

    /// Resume a paused stream. Fails with Stream for an unknown id and with
    /// StateTransition when the stream is not Paused.
    pub fn resume_stream(&mut self, stream_id: &str) -> (r: DslResult<()>)
        requires
            old(self).wf(),
        ensures
            final(self).wf(),
            final(self).sinks() == old(self).sinks(),
            !old(self).pipeline().streams().contains_key(stream_id@) ==> r matches Err(DslError::Stream(_)),
            r.is_ok() == (old(self).pipeline().streams().contains_key(stream_id@)
                && old(self).pipeline().streams()[stream_id@].health.state == StreamState::Paused),
            r.is_ok() ==> final(self).pipeline().streams() == old(self).pipeline().streams().insert(
                stream_id@,
                set_state(old(self).pipeline().streams()[stream_id@], StreamState::Running),
            ),
            r.is_err() ==> final(self).pipeline().streams() == old(self).pipeline().streams(),
    {
        match self.pipeline.get_stream_health(stream_id) {
            None => return Err(DslError::Stream(String::from_str("Stream not found"))),
            Some(h) => {
                if h.state != StreamState::Paused {
                    return Err(DslError::StateTransition(String::from_str("Only a paused stream can resume")));
                }
            },
        }
        match self.pipeline.transition_stream(stream_id, TransitionCondition::OnSuccess) {
            Ok(_) => Ok(()),
            Err(e) => Err(e),
        }
    }

    /// Drive `stream_id` along legal transitions after an error: Running
    /// takes OnError (to Recovering) and Starting takes OnError (to Failed);
    /// when `to_failed` holds, Recovering then takes OnTimeout (to Failed).
    fn degrade(&mut self, stream_id: &str, to_failed: bool)
        requires
            old(self).wf(),
            old(self).pipeline().streams().contains_key(stream_id@),
        ensures
            final(self).wf(),
            final(self).sinks() == old(self).sinks(),
            final(self).pipeline().streams() == old(self).pipeline().streams().insert(
                stream_id@,
                set_state(
                    old(self).pipeline().streams()[stream_id@],
                    if to_failed {
                        given_up(old(self).pipeline().streams()[stream_id@].health.state)
                    } else {
                        after_error(old(self).pipeline().streams()[stream_id@].health.state)
                    },
                ),
            ),
    {
        let ghost info0 = self.pipeline.streams()[stream_id@];
        let st = match self.pipeline.get_stream_health(stream_id) {
            Some(h) => h.state,
            None => StreamState::Idle,
        };
        assert(st == info0.health.state);
        if st == StreamState::Running || st == StreamState::Starting {
            let _ = self.pipeline.transition_stream(stream_id, TransitionCondition::OnError);
        } else {
            assert(old(self).pipeline().streams() =~= old(self).pipeline().streams().insert(stream_id@, set_state(info0, st)));
        }
        if to_failed && st == StreamState::Running || to_failed && st == StreamState::Recovering {
            let _ = self.pipeline.transition_stream(stream_id, TransitionCondition::OnTimeout);
        }
        proof {
            assert(self.pipeline.streams() =~= old(self).pipeline().streams().insert(
                stream_id@,
                set_state(info0, if to_failed { given_up(info0.health.state) } else { after_error(info0.health.state) }),
            ));
        }
    }

    /// Record `error` against `stream_id` and apply `preferred`, the action
    /// that the stream's source or sink asked for when it handled the error.
    /// An unknown id fails with Stream and changes nothing. Otherwise:
    /// - Remove takes the stream out of the map (it is recorded as Stopped)
    ///   and returns Remove: no further recovery is tried.
    /// - Ignore records the error and leaves the state alone.
    /// - Escalate records the error, gives the stream up as Failed and fails
    ///   with RecoveryFailed.
    /// - Retry, Restart and Replace record the error. Below five consecutive
    ///   errors the stream goes from Running to Recovering (Starting fails)
    ///   and the action is returned: the caller performs it and reports with
    ///   `reconnect_finished`. At five the stream is given up as Failed and
    ///   the call fails with RecoveryFailed.
    pub fn handle_stream_error(&mut self, stream_id: &str, error: DslError, preferred: RecoveryAction) -> (r: DslResult<RecoveryAction>)
        requires
            old(self).wf(),
        ensures
            final(self).wf(),
            final(self).sinks() == old(self).sinks(),
            !old(self).pipeline().streams().contains_key(stream_id@) ==> (r matches Err(DslError::Stream(_))),
            !old(self).pipeline().streams().contains_key(stream_id@) ==> final(self).pipeline().streams() == old(self).pipeline().streams(),
            old(self).pipeline().streams().contains_key(stream_id@) ==> {
                let info = old(self).pipeline().streams()[stream_id@];
                let errors = inc32(info.health.consecutive_errors);
                let recorded = StreamInfo {
                    health: StreamHealth { last_error: Some(error), consecutive_errors: errors, ..info.health },
                    ..info
                };
                let acts = preferred == RecoveryAction::Retry || preferred == RecoveryAction::Restart
                    || preferred == RecoveryAction::Replace;
                &&& preferred == RecoveryAction::Remove ==> r == Ok::<RecoveryAction, DslError>(RecoveryAction::Remove)
                    && final(self).pipeline().streams() == old(self).pipeline().streams().remove(stream_id@)
                    && state_in(final(self).pipeline().states(), stream_id@) == StreamState::Stopped
                &&& preferred == RecoveryAction::Ignore ==> r == Ok::<RecoveryAction, DslError>(RecoveryAction::Ignore)
                    && final(self).pipeline().streams() == old(self).pipeline().streams().insert(stream_id@, recorded)
                &&& preferred == RecoveryAction::Escalate ==> (r matches Err(DslError::RecoveryFailed(_)))
                    && final(self).pipeline().streams() == old(self).pipeline().streams().insert(
                    stream_id@,
                    set_state(recorded, given_up(info.health.state)),
                )
                &&& acts && errors < STREAM_ERROR_LIMIT ==> r == Ok::<RecoveryAction, DslError>(preferred)
                    && final(self).pipeline().streams() == old(self).pipeline().streams().insert(
                    stream_id@,
                    set_state(recorded, after_error(info.health.state)),
                )
                &&& acts && errors >= STREAM_ERROR_LIMIT ==> (r matches Err(DslError::RecoveryFailed(_)))
                    && final(self).pipeline().streams() == old(self).pipeline().streams().insert(
                    stream_id@,
                    set_state(recorded, given_up(info.health.state)),
                )
            },
            r == Ok::<RecoveryAction, DslError>(RecoveryAction::Retry) ==> preferred == RecoveryAction::Retry,
    {
        if preferred == RecoveryAction::Remove {
            if self.pipeline.get_stream_health(stream_id).is_none() {
                return Err(DslError::Stream(String::from_str("Stream not found")));
            }
            let _ = self.pipeline.remove_stream(stream_id);
            return Ok(RecoveryAction::Remove);
        }
        let known = self.pipeline.record_error(stream_id, error);
        if !known {
            return Err(DslError::Stream(String::from_str("Stream not found")));
        }
        if preferred == RecoveryAction::Ignore {
            return Ok(RecoveryAction::Ignore);
        }
        let errors = match self.pipeline.get_stream_health(stream_id) {
            Some(h) => h.consecutive_errors,
            None => 0,
        };
        if preferred != RecoveryAction::Escalate && errors < STREAM_ERROR_LIMIT {
            self.degrade(stream_id, false);
            Ok(preferred)
        } else {
            self.degrade(stream_id, true);
            Err(DslError::RecoveryFailed(String::from_str("Stream given up")))
        }
    }

    /// The caller's reconnect of `stream_id` finished. On success a
    /// Recovering stream returns to Running and counts one recovery attempt;
    /// on failure it becomes Failed. Fails with Stream for an unknown id and
    /// with StateTransition when the stream is not Recovering.
    pub fn reconnect_finished(&mut self, stream_id: &str, success: bool) -> (r: DslResult<()>)
        requires
            old(self).wf(),
        ensures
            final(self).wf(),
            final(self).sinks() == old(self).sinks(),
            !old(self).pipeline().streams().contains_key(stream_id@) ==> r matches Err(DslError::Stream(_)),
            r.is_ok() == (old(self).pipeline().streams().contains_key(stream_id@)
                && old(self).pipeline().streams()[stream_id@].health.state == StreamState::Recovering),
            r.is_err() ==> final(self).pipeline().streams() == old(self).pipeline().streams(),
            r.is_ok() && success ==> final(self).pipeline().streams() == old(self).pipeline().streams().insert(
                stream_id@,
                StreamInfo {
                    health: StreamHealth {
                        state: StreamState::Running,
                        recovery_attempts: inc32(old(self).pipeline().streams()[stream_id@].health.recovery_attempts),
                        ..old(self).pipeline().streams()[stream_id@].health
                    },
                    ..old(self).pipeline().streams()[stream_id@]
                },
            ),
            r.is_ok() && !success ==> final(self).pipeline().streams() == old(self).pipeline().streams().insert(
                stream_id@,
                set_state(old(self).pipeline().streams()[stream_id@], StreamState::Failed),
            ),
    {
        match self.pipeline.get_stream_health(stream_id) {
            None => return Err(DslError::Stream(String::from_str("Stream not found"))),
            Some(h) => {
                if h.state != StreamState::Recovering {
                    return Err(DslError::StateTransition(String::from_str("Stream is not recovering")));
                }
            },
        }
        proof {
            self.pipeline.lemma_one_record_per_stream(stream_id@);
        }
        if success {
            self.pipeline.trigger_recovery(stream_id)
        } else {
            match self.pipeline.transition_stream(stream_id, TransitionCondition::OnTimeout) {
                Ok(_) => Ok(()),
                Err(e) => Err(e),
            }
        }
    }
}

/// Admitting a source and then removing it gives back the stream map that
/// was there before.
pub proof fn lemma_add_then_remove(before: Map<Seq<char>, StreamInfo>, after_add: Map<Seq<char>, StreamInfo>, id: Seq<char>)
    requires
        !before.contains_key(id),
        after_add.dom() == before.dom().insert(id),
        forall|k: Seq<char>| k != id ==> #[trigger] after_add.contains_key(k) ==> after_add[k] == before[k],
    ensures
        after_add.remove(id) == before,
{
    assert(after_add.remove(id) =~= before);
}

} // verus!
