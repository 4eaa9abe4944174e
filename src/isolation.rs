//! Per-stream isolation bookkeeping: resource quotas, usage, and panic
//! containment decisions. Threads and the process-wide panic hook are the
//! caller's; this type keeps the counts and decides.
use vstd::prelude::*;
use vstd::string::*;

use crate::error::{DslError, DslResult};
use crate::pipeline::inc32;
use crate::shared_map::{
    isolation_entries, isolation_map_get, isolation_map_insert, isolation_map_len, isolation_map_remove,
    new_isolation_map,
};
use dashmap::DashMap;

verus! {

/// Per-stream resource ceilings (advisory).
#[derive(Debug, Clone, Copy, PartialEq, Eq, Structural)]
pub struct ResourceQuota {
    pub max_memory_mb: u64,
    pub max_cpu_percent: u64,
    pub max_threads: usize,
    pub max_file_handles: usize,
}

impl Default for ResourceQuota {
    /// 512 MB, 25 % CPU, four threads, ten file handles.
    fn default() -> (r: ResourceQuota)
        ensures
            r == ResourceQuota::spec_default(),
    {
        ResourceQuota { max_memory_mb: 512, max_cpu_percent: 25, max_threads: 4, max_file_handles: 10 }
    }
}

impl ResourceQuota {
    pub open spec fn spec_default() -> ResourceQuota {
        ResourceQuota { max_memory_mb: 512, max_cpu_percent: 25, max_threads: 4, max_file_handles: 10 }
    }
}

#[derive(Debug, Clone, Copy, PartialEq, Eq, Structural)]
pub struct IsolationConfig {
    pub enable_resource_limits: bool,
    pub enable_panic_isolation: bool,
    pub enable_cpu_throttling: bool,
    pub default_quota: ResourceQuota,
    pub thread_pool_size: usize,
}

impl Default for IsolationConfig {
    /// Limits and panic isolation on, CPU throttling off, default quota,
    /// eight pool threads.
    fn default() -> (r: IsolationConfig)
        ensures
            r == (IsolationConfig {
                enable_resource_limits: true,
                enable_panic_isolation: true,
                enable_cpu_throttling: false,
                default_quota: ResourceQuota::spec_default(),
                thread_pool_size: 8,
            }),
    {
        IsolationConfig {
            enable_resource_limits: true,
            enable_panic_isolation: true,
            enable_cpu_throttling: false,
            default_quota: ResourceQuota::default(),
            thread_pool_size: 8,
        }
    }
}

/// What to do with a stream after one of its threads panicked.
#[derive(Debug, Clone, Copy, PartialEq, Eq, Structural)]
pub enum RecoveryAction {
    Restart,
    Remove,
    Ignore,
}

/// Above this many panics a stream is removed rather than restarted.
pub const PANIC_LIMIT: u32 = 3;

/// What the isolator keeps for each stream. Memory is in bytes, CPU in
/// percent, time in monotonic milliseconds.
#[derive(Debug, Clone, Copy, PartialEq, Eq, Structural)]
pub struct IsolatedStream {
    pub quota: ResourceQuota,
    pub memory_usage: u64,
    pub cpu_usage: u64,
    pub panic_count: u32,
    pub last_activity_ms: u64,
}

/// Bytes in a megabyte.
pub const BYTES_PER_MB: u64 = 1048576;

/// Whether a stream's memory use is over its quota.
pub open spec fn over_memory(s: IsolatedStream) -> bool {
    s.memory_usage as int > s.quota.max_memory_mb as int * BYTES_PER_MB as int
}

pub struct StreamIsolator {
    config: IsolationConfig,
    streams: DashMap<String, IsolatedStream>,
    running: bool,
}

impl StreamIsolator {
    pub closed spec fn streams(&self) -> Map<Seq<char>, IsolatedStream> {
        isolation_entries(self.streams)
    }

    pub closed spec fn spec_config(&self) -> IsolationConfig {
        self.config
    }

    pub closed spec fn spec_running(&self) -> bool {
        self.running
    }

    /// The map of isolated streams is finite.
    pub closed spec fn wf(&self) -> bool {
        self.streams().dom().finite()
    }

    /// An isolator with no streams and its monitor stopped.
    pub fn new(config: IsolationConfig) -> (r: StreamIsolator)
        ensures
            r.wf(),
            r.spec_config() == config,
            r.streams() == Map::<Seq<char>, IsolatedStream>::empty(),
            !r.spec_running(),
    {
        let r = StreamIsolator { config, streams: new_isolation_map(), running: false };
        assert(r.streams() =~= Map::<Seq<char>, IsolatedStream>::empty());
        r
    }

    /// Number of isolated streams.
    pub fn stream_count(&self) -> (r: usize)
        requires
            self.wf(),
        ensures
            r == self.streams().dom().len(),
    {
        isolation_map_len(&self.streams)
    }

    /// Start isolating `name` at `now_ms` under the default quota, with no
    /// usage and no panics. Fails with Other if it is already isolated.
    pub fn isolate_stream(&mut self, name: String, now_ms: u64) -> (r: DslResult<()>)
        requires
            old(self).wf(),
        ensures
            final(self).wf(),
            final(self).spec_config() == old(self).spec_config(),
            r.is_ok() == !old(self).streams().contains_key(name@),
            r.is_err() ==> (r matches Err(DslError::Other(_))) && final(self).streams() == old(self).streams(),
            r.is_ok() ==> final(self).streams() == old(self).streams().insert(
                name@,
                IsolatedStream {
                    quota: old(self).spec_config().default_quota,
                    memory_usage: 0,
                    cpu_usage: 0,
                    panic_count: 0,
                    last_activity_ms: now_ms,
                },
            ),
    {
        if isolation_map_get(&self.streams, name.as_str()).is_some() {
            return Err(DslError::Other(String::from_str("Stream already isolated")));
        }
        let s = IsolatedStream {
            quota: self.config.default_quota,
            memory_usage: 0,
            cpu_usage: 0,
            panic_count: 0,
            last_activity_ms: now_ms,
        };
        isolation_map_insert(&mut self.streams, name.as_str(), s);
        Ok(())
    }

    /// Stop isolating `name`. Fails with Other if it is not isolated.
    pub fn remove_stream(&mut self, name: &str) -> (r: DslResult<()>)
        requires
            old(self).wf(),
        ensures
            final(self).wf(),
            final(self).spec_config() == old(self).spec_config(),
            r.is_ok() == old(self).streams().contains_key(name@),
            r.is_err() ==> r matches Err(DslError::Other(_)),
            final(self).streams() == old(self).streams().remove(name@),
    {
        match isolation_map_remove(&mut self.streams, name) {
            Some(_) => Ok(()),
            None => Err(DslError::Other(String::from_str("Stream not found"))),
        }
    }

    /// Record measured usage of `name` at `now_ms`. Returns whether it is
    /// isolated.
    pub fn record_usage(&mut self, name: &str, memory_bytes: u64, cpu_percent: u64, now_ms: u64) -> (r: bool)
        requires
            old(self).wf(),
        ensures
            final(self).wf(),
            final(self).spec_config() == old(self).spec_config(),
            r == old(self).streams().contains_key(name@),
            r ==> final(self).streams() == old(self).streams().insert(
                name@,
                IsolatedStream {
                    memory_usage: memory_bytes,
                    cpu_usage: cpu_percent,
                    last_activity_ms: now_ms,
                    ..old(self).streams()[name@]
                },
            ),
            !r ==> final(self).streams() == old(self).streams(),
    {
        match isolation_map_get(&self.streams, name) {
            Some(s) => {
                let mut s = s;
                s.memory_usage = memory_bytes;
                s.cpu_usage = cpu_percent;
                s.last_activity_ms = now_ms;
                isolation_map_insert(&mut self.streams, name, s);
                true
            },
            None => false,
        }
    }

    /// Fails with ResourceExhaustion when limits are enabled and the
    /// stream's memory use is over its quota; succeeds otherwise.
    pub fn enforce_memory_quota(&self, name: &str) -> (r: DslResult<()>)
        requires
            self.wf(),
        ensures
            r.is_err() == (self.spec_config().enable_resource_limits && self.streams().contains_key(name@)
                && over_memory(self.streams()[name@])),
            r.is_err() ==> r matches Err(DslError::ResourceExhaustion(_)),
    {
        if !self.config.enable_resource_limits {
            return Ok(());
        }
        match isolation_map_get(&self.streams, name) {
            Some(s) => {
                if s.memory_usage as u128 > s.quota.max_memory_mb as u128 * BYTES_PER_MB as u128 {
                    Err(DslError::ResourceExhaustion(String::from_str("Stream memory quota exceeded")))
                } else {
                    Ok(())
                }
            },
            None => Ok(()),
        }
    }

    /// Whether the stream's CPU use should be throttled: throttling is
    /// enabled and its use is over its quota.
    pub fn throttle_cpu(&self, name: &str) -> (r: DslResult<bool>)
        requires
            self.wf(),
        ensures
            r == Ok::<bool, DslError>(
                self.spec_config().enable_cpu_throttling && self.streams().contains_key(name@)
                    && self.streams()[name@].cpu_usage > self.streams()[name@].quota.max_cpu_percent,
            ),
    {
        if !self.config.enable_cpu_throttling {
            return Ok(false);
        }
        match isolation_map_get(&self.streams, name) {
            Some(s) => Ok(s.cpu_usage > s.quota.max_cpu_percent),
            None => Ok(false),
        }
    }

    /// Count a panic of `name`: up to three panics ask for a restart, more
    /// ask for removal. A stream that is not isolated is ignored.
    pub fn handle_panic(&mut self, name: &str) -> (r: DslResult<RecoveryAction>)
        requires
            old(self).wf(),
        ensures
            final(self).wf(),
            final(self).spec_config() == old(self).spec_config(),
            !old(self).streams().contains_key(name@) ==> r == Ok::<RecoveryAction, DslError>(RecoveryAction::Ignore)
                && final(self).streams() == old(self).streams(),
            old(self).streams().contains_key(name@) ==> {
                let s = old(self).streams()[name@];
                let count = inc32(s.panic_count);
                &&& final(self).streams() == old(self).streams().insert(name@, IsolatedStream { panic_count: count, ..s })
                &&& r == Ok::<RecoveryAction, DslError>(
                    if count > PANIC_LIMIT { RecoveryAction::Remove } else { RecoveryAction::Restart },
                )
            },
    {
        match isolation_map_get(&self.streams, name) {
            Some(s) => {
                let mut s = s;
                s.panic_count = crate::pipeline::inc_u32(s.panic_count);
                isolation_map_insert(&mut self.streams, name, s);
                if s.panic_count > PANIC_LIMIT {
                    Ok(RecoveryAction::Remove)
                } else {
                    Ok(RecoveryAction::Restart)
                }
            },
            None => Ok(RecoveryAction::Ignore),
        }
    }

    pub fn start_monitoring(&mut self)
        ensures
            final(self).spec_running(),
            final(self).streams() == old(self).streams(),
            final(self).spec_config() == old(self).spec_config(),
            final(self).wf() == old(self).wf(),
    {
        self.running = true;
    }

    pub fn stop_monitoring(&mut self)
        ensures
            !final(self).spec_running(),
            final(self).streams() == old(self).streams(),
            final(self).spec_config() == old(self).spec_config(),
            final(self).wf() == old(self).wf(),
    {
        self.running = false;
    }

    /// Memory (bytes) and CPU (percent) last recorded for `name`.
    pub fn get_stream_resources(&self, name: &str) -> (r: Option<(u64, u64)>)
        requires
            self.wf(),
        ensures
            r.is_some() == self.streams().contains_key(name@),
            r.is_some() ==> r.unwrap() == (self.streams()[name@].memory_usage, self.streams()[name@].cpu_usage),
    {
        match isolation_map_get(&self.streams, name) {
            Some(s) => Some((s.memory_usage, s.cpu_usage)),
            None => None,
        }
    }

    /// The number of panics counted for `name`.
    pub fn panic_count(&self, name: &str) -> (r: Option<u32>)
        requires
            self.wf(),
        ensures
            r.is_some() == self.streams().contains_key(name@),
            r.is_some() ==> r.unwrap() == self.streams()[name@].panic_count,
    {
        match isolation_map_get(&self.streams, name) {
            Some(s) => Some(s.panic_count),
            None => None,
        }
    }

    /// Replace the quota of `name`. Fails with Other if it is not isolated.
    pub fn set_stream_quota(&mut self, name: &str, quota: ResourceQuota) -> (r: DslResult<()>)
        requires
            old(self).wf(),
        ensures
            final(self).wf(),
            final(self).spec_config() == old(self).spec_config(),
            r.is_ok() == old(self).streams().contains_key(name@),
            r.is_err() ==> (r matches Err(DslError::Other(_))) && final(self).streams() == old(self).streams(),
            r.is_ok() ==> final(self).streams() == old(self).streams().insert(
                name@,
                IsolatedStream { quota, ..old(self).streams()[name@] },
            ),
    {
        match isolation_map_get(&self.streams, name) {
            Some(s) => {
                let mut s = s;
                s.quota = quota;
                isolation_map_insert(&mut self.streams, name, s);
                Ok(())
            },
            None => Err(DslError::Other(String::from_str("Stream not found"))),
        }
    }
}

} // verus!
