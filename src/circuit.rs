//! Per-stream circuit breaker: a Closed / Open / HalfOpen gate around
//! recovery work. Times are monotonic milliseconds supplied by the caller.
use vstd::prelude::*;

verus! {

#[derive(Debug, Clone, Copy, PartialEq, Eq, Structural)]
pub enum CircuitState {
    /// Normal operation.
    Closed,
    /// Requests are refused.
    Open,
    /// A limited number of probe requests test whether recovery works.
    HalfOpen,
}

/// Thresholds of a breaker; `timeout_ms` is how long it stays open after
/// the last failure before it lets a probe through.
#[derive(Debug, Clone, Copy, PartialEq, Eq, Structural)]
pub struct CircuitBreakerConfig {
    pub failure_threshold: u32,
    pub success_threshold: u32,
    pub timeout_ms: u64,
    pub half_open_attempts: u32,
}

impl Default for CircuitBreakerConfig {
    /// Five failures to trip, two successes to close, 30 s open, three probes.
    fn default() -> (r: CircuitBreakerConfig)
        ensures
            r == (CircuitBreakerConfig {
                failure_threshold: 5,
                success_threshold: 2,
                timeout_ms: 30000,
                half_open_attempts: 3,
            }),
    {
        CircuitBreakerConfig {
            failure_threshold: 5,
            success_threshold: 2,
            timeout_ms: 30000,
            half_open_attempts: 3,
        }
    }
}

#[derive(Debug, Clone, Copy, PartialEq, Eq, Structural)]
pub struct CircuitBreaker {
    pub state: CircuitState,
    pub failure_count: u32,
    pub success_count: u32,
    pub last_failure_time: Option<u64>,
    pub config: CircuitBreakerConfig,
}

/// Milliseconds from `from` to `to`, zero if `to` is earlier.
pub open spec fn elapsed(from: u64, to: u64) -> int {
    if to >= from {
        to - from
    } else {
        0
    }
}

/// The breaker after a success.
pub open spec fn after_success(b: CircuitBreaker) -> CircuitBreaker {
    match b.state {
        CircuitState::HalfOpen => if b.success_count + 1 >= b.config.success_threshold {
            CircuitBreaker { state: CircuitState::Closed, failure_count: 0, success_count: 0, ..b }
        } else {
            CircuitBreaker { success_count: (b.success_count + 1) as u32, ..b }
        },
        CircuitState::Closed => CircuitBreaker { failure_count: 0, ..b },
        CircuitState::Open => b,
    }
}

/// The breaker after a failure observed at `now`.
pub open spec fn after_failure(b: CircuitBreaker, now: u64) -> CircuitBreaker {
    let b1 = CircuitBreaker { last_failure_time: Some(now), ..b };
    match b.state {
        CircuitState::Closed => if b.failure_count + 1 >= b.config.failure_threshold {
            CircuitBreaker {
                state: CircuitState::Open,
                failure_count: (b.failure_count + 1) as u32,
                ..b1
            }
        } else {
            CircuitBreaker { failure_count: (b.failure_count + 1) as u32, ..b1 }
        },
        CircuitState::HalfOpen => CircuitBreaker {
            state: CircuitState::Open,
            failure_count: 0,
            success_count: 0,
            ..b1
        },
        CircuitState::Open => b1,
    }
}

/// Whether an open breaker's timeout has run out at `now`.
pub open spec fn timeout_expired(b: CircuitBreaker, now: u64) -> bool {
    match b.last_failure_time {
        Some(t) => elapsed(t, now) >= b.config.timeout_ms,
        None => false,
    }
}

/// The answer of `should_allow_request` at `now`.
pub open spec fn allows(b: CircuitBreaker, now: u64) -> bool {
    match b.state {
        CircuitState::Closed => true,
        CircuitState::Open => timeout_expired(b, now),
        CircuitState::HalfOpen => b.success_count < b.config.half_open_attempts,
    }
}

/// The breaker after `should_allow_request` at `now`.
pub open spec fn after_query(b: CircuitBreaker, now: u64) -> CircuitBreaker {
    match b.state {
        CircuitState::Open => if timeout_expired(b, now) {
            CircuitBreaker { state: CircuitState::HalfOpen, success_count: 0, ..b }
        } else {
            b
        },
        _ => b,
    }
}

/// The breaker after `n` failures, all observed at `now`.
pub open spec fn after_failures(b: CircuitBreaker, n: nat, now: u64) -> CircuitBreaker
    decreases n,
{
    if n == 0 {
        b
    } else {
        after_failure(after_failures(b, (n - 1) as nat, now), now)
    }
}

impl CircuitBreaker {
    /// Counters stay below the thresholds that reset them: in Closed the
    /// failure count is under the failure threshold (or zero), in HalfOpen
    /// the success count is under the success threshold (or zero).
    pub open spec fn wf(self) -> bool {
        &&& (self.state == CircuitState::Closed ==> self.failure_count <= self.config.failure_threshold)
        &&& (self.state == CircuitState::Closed ==> (self.failure_count
            < self.config.failure_threshold || self.failure_count == 0))
        &&& (self.state == CircuitState::HalfOpen ==> (self.success_count
            < self.config.success_threshold || self.success_count == 0))
    }

    pub open spec fn spec_new(config: CircuitBreakerConfig) -> CircuitBreaker {
        CircuitBreaker {
            state: CircuitState::Closed,
            failure_count: 0,
            success_count: 0,
            last_failure_time: None,
            config,
        }
    }

    /// A closed breaker with zero counters.
    pub fn new(config: CircuitBreakerConfig) -> (r: CircuitBreaker)
        ensures
            r == CircuitBreaker::spec_new(config),
            r.wf(),
    {
        CircuitBreaker {
            state: CircuitState::Closed,
            failure_count: 0,
            success_count: 0,
            last_failure_time: None,
            config,
        }
    }

    /// The current state.
    pub fn state(&self) -> (r: CircuitState)
        ensures
            r == self.state,
    {
        self.state
    }

    /// Record a success: in HalfOpen it counts toward closing; in Closed it
    /// clears the failure count; in Open it changes nothing.
    pub fn on_success(&mut self)
        requires
            old(self).wf(),
        ensures
            *final(self) == after_success(*old(self)),
            final(self).wf(),
    {
        match self.state {
            CircuitState::HalfOpen => {
                self.success_count = self.success_count + 1;
                if self.success_count >= self.config.success_threshold {
                    self.state = CircuitState::Closed;
                    self.failure_count = 0;
                    self.success_count = 0;
                }
            },
            CircuitState::Closed => {
                self.failure_count = 0;
            },
            CircuitState::Open => {},
        }
    }

    /// Record a failure seen at `now_ms`: in Closed it counts toward
    /// opening; in HalfOpen it reopens the breaker and zeroes both counters.
    pub fn on_failure(&mut self, now_ms: u64)
        requires
            old(self).wf(),
        ensures
            *final(self) == after_failure(*old(self), now_ms),
            final(self).wf(),
    {
        self.last_failure_time = Some(now_ms);
        match self.state {
            CircuitState::Closed => {
                self.failure_count = self.failure_count + 1;
                if self.failure_count >= self.config.failure_threshold {
                    self.state = CircuitState::Open;
                }
            },
            CircuitState::HalfOpen => {
                self.state = CircuitState::Open;
                self.failure_count = 0;
                self.success_count = 0;
            },
            CircuitState::Open => {},
        }
    }

    /// Whether a request may go through at `now_ms`. An open breaker whose
    /// timeout has run out moves to HalfOpen here and lets the request
    /// through; a half-open breaker admits probes while its success count is
    /// under `half_open_attempts`.
    pub fn should_allow_request(&mut self, now_ms: u64) -> (r: bool)
        requires
            old(self).wf(),
        ensures
            r == allows(*old(self), now_ms),
            *final(self) == after_query(*old(self), now_ms),
            final(self).wf(),
    {
        match self.state {
            CircuitState::Closed => true,
            CircuitState::Open => {
                match self.last_failure_time {
                    Some(t) => {
                        let waited: u64 = if now_ms >= t {
                            now_ms - t
                        } else {
                            0
                        };
                        if waited >= self.config.timeout_ms {
                            self.state = CircuitState::HalfOpen;
                            self.success_count = 0;
                            true
                        } else {
                            false
                        }
                    },
                    None => false,
                }
            },
            CircuitState::HalfOpen => self.success_count < self.config.half_open_attempts,
        }
    }

    /// Close the breaker and zero both counters.
    pub fn reset(&mut self)
        ensures
            final(self).state == CircuitState::Closed,
            final(self).failure_count == 0,
            final(self).success_count == 0,
            final(self).last_failure_time == old(self).last_failure_time,
            final(self).config == old(self).config,
            final(self).wf(),
    {
        self.state = CircuitState::Closed;
        self.failure_count = 0;
        self.success_count = 0;
    }
}

/// From a fresh breaker, fewer than `failure_threshold` failures leave it
/// Closed with that many failures counted, and exactly `failure_threshold`
/// failures open it.
pub proof fn lemma_opens_at_threshold(config: CircuitBreakerConfig, n: nat, now: u64)
    requires
        config.failure_threshold > 0,
        n <= config.failure_threshold,
    ensures
        n < config.failure_threshold ==> after_failures(CircuitBreaker::spec_new(config), n, now).state
            == CircuitState::Closed,
        n < config.failure_threshold ==> after_failures(
            CircuitBreaker::spec_new(config),
            n,
            now,
        ).failure_count == n,
        n == config.failure_threshold ==> after_failures(
            CircuitBreaker::spec_new(config),
            n,
            now,
        ).state == CircuitState::Open,
        after_failures(CircuitBreaker::spec_new(config), n, now).config == config,
    decreases n,
{
    let b0 = CircuitBreaker::spec_new(config);
    if n > 0 {
        lemma_opens_at_threshold(config, (n - 1) as nat, now);
        let prev = after_failures(b0, (n - 1) as nat, now);
        assert(prev.state == CircuitState::Closed);
        assert(prev.failure_count == n - 1);
        assert(after_failures(b0, n, now) == after_failure(prev, now));
    } else {
        assert(after_failures(b0, 0, now) == b0);
    }
}

/// An open breaker moves to HalfOpen and admits a request exactly when the
/// timeout has elapsed since the last failure, and not a millisecond before.
pub proof fn lemma_half_open_at_timeout(b: CircuitBreaker, t: u64, now: u64)
    requires
        b.state == CircuitState::Open,
        b.last_failure_time == Some(t),
        now >= t,
    ensures
        allows(b, now) == (now - t >= b.config.timeout_ms),
        now - t >= b.config.timeout_ms ==> after_query(b, now).state == CircuitState::HalfOpen,
        now - t < b.config.timeout_ms ==> after_query(b, now).state == CircuitState::Open,
{
}

/// In HalfOpen a probe is admitted only while the success count is under
/// `half_open_attempts`; in Closed the failure count never exceeds the
/// failure threshold.
pub proof fn lemma_breaker_invariant(b: CircuitBreaker, now: u64)
    requires
        b.wf(),
    ensures
        b.state == CircuitState::HalfOpen ==> (allows(b, now) == (b.success_count
            < b.config.half_open_attempts)),
        b.state == CircuitState::Closed ==> b.failure_count <= b.config.failure_threshold,
{
}

} // verus!
