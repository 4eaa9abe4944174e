//! Decisions of the file and network sources: how each answers an error,
//! end-of-file looping, and their configuration.
use vstd::prelude::*;
use vstd::string::*;

use crate::error::DslError;
use crate::model::{RecoveryAction, RetryConfig, StreamState};
use crate::pipeline::inc32;
use crate::text::{has_text, occurs_in};

verus! {

#[derive(Debug, Clone, Copy, PartialEq, Eq, Structural)]
pub enum ConnectionState {
    Disconnected,
    Connecting,
    Connected,
    Reconnecting,
    Failed,
}

/// Settings of a network (RTSP) source; times are microseconds except the
/// latency, in milliseconds.
#[derive(Debug, Clone)]
pub struct RtspConfig {
    pub uri: String,
    pub protocols: u32,
    pub latency: u32,
    pub timeout: u64,
    pub reconnect_timeout: u64,
    pub tcp_timeout: u64,
    /// 0 none, 1 slave, 2 buffer, 3 auto, 4 synced.
    pub buffer_mode: i32,
    pub ntp_sync: bool,
    pub retry_on_401: bool,
    pub user_agent: Option<String>,
    pub user_id: Option<String>,
    pub user_password: Option<String>,
}

impl Default for RtspConfig {
    /// TCP, 100 ms latency, 5 s timeouts, automatic buffering, retry on 401.
    fn default() -> (r: RtspConfig)
        ensures
            r.uri@.len() == 0,
            r.protocols == 4,
            r.latency == 100,
            r.timeout == 5000000,
            r.reconnect_timeout == 5000000,
            r.tcp_timeout == 5000000,
            r.buffer_mode == 3,
            !r.ntp_sync,
            r.retry_on_401,
            r.user_agent.is_some() && r.user_agent.unwrap()@ == "dsl-rs/1.0"@,
            r.user_id.is_none(),
            r.user_password.is_none(),
    {
        RtspConfig {
            uri: String::new(),
            protocols: 4,
            latency: 100,
            timeout: 5000000,
            reconnect_timeout: 5000000,
            tcp_timeout: 5000000,
            buffer_mode: 3,
            ntp_sync: false,
            retry_on_401: true,
            user_agent: Some(String::from_str("dsl-rs/1.0")),
            user_id: None,
            user_password: None,
        }
    }
}

/// The name of a buffer mode; unknown codes read as "auto".
pub open spec fn buffer_mode_label(mode: i32) -> Seq<char> {
    if mode == 0 {
        "none"@
    } else if mode == 1 {
        "slave"@
    } else if mode == 2 {
        "buffer"@
    } else if mode == 4 {
        "synced"@
    } else {
        "auto"@
    }
}

pub fn buffer_mode_name(mode: i32) -> (r: &'static str)
    ensures
        r@ == buffer_mode_label(mode),
{
    if mode == 0 {
        "none"
    } else if mode == 1 {
        "slave"
    } else if mode == 2 {
        "buffer"
    } else if mode == 4 {
        "synced"
    } else {
        "auto"
    }
}

/// How a network source reads a network error message: refused
/// credentials (401, when `retry_on_401`) ask for a new source; a timeout
/// retries; a missing stream (404) is removed; a refused connection
/// retries; anything else restarts.
pub open spec fn network_error_action(msg: Seq<char>, retry_on_401: bool) -> RecoveryAction {
    if occurs_in(msg, "401"@) && retry_on_401 {
        RecoveryAction::Replace
    } else if occurs_in(msg, "timeout"@) || occurs_in(msg, "Timeout"@) {
        RecoveryAction::Retry
    } else if occurs_in(msg, "404"@) {
        RecoveryAction::Remove
    } else if occurs_in(msg, "connection refused"@) {
        RecoveryAction::Retry
    } else {
        RecoveryAction::Restart
    }
}

pub fn classify_network_error(error_msg: &str, retry_on_401: bool) -> (r: RecoveryAction)
    ensures
        r == network_error_action(error_msg@, retry_on_401),
{
    if has_text(error_msg, "401") && retry_on_401 {
        RecoveryAction::Replace
    } else if has_text(error_msg, "timeout") || has_text(error_msg, "Timeout") {
        RecoveryAction::Retry
    } else if has_text(error_msg, "404") {
        RecoveryAction::Remove
    } else if has_text(error_msg, "connection refused") {
        RecoveryAction::Retry
    } else {
        RecoveryAction::Restart
    }
}

/// A network source's answer to an error, once its reconnect loop has run:
/// a reconnect consumes the error; otherwise a network error is classified
/// and anything else restarts.
pub open spec fn rtsp_error_action(error: DslError, reconnected: bool, retry_on_401: bool) -> RecoveryAction {
    if reconnected {
        RecoveryAction::Ignore
    } else {
        match error {
            DslError::Network(m) => network_error_action(m@, retry_on_401),
            _ => RecoveryAction::Restart,
        }
    }
}

pub fn rtsp_handle_error(error: &DslError, reconnected: bool, retry_on_401: bool) -> (r: RecoveryAction)
    ensures
        r == rtsp_error_action(*error, reconnected, retry_on_401),
{
    if reconnected {
        return RecoveryAction::Ignore;
    }
    match error {
        DslError::Network(m) => classify_network_error(m.as_str(), retry_on_401),
        _ => RecoveryAction::Restart,
    }
}

/// Whether an error is a file source's end of file.
pub open spec fn is_end_of_file(error: DslError) -> bool {
    match error {
        DslError::Source(m) => occurs_in(m@, "End of file"@),
        _ => false,
    }
}

/// Whether a file source answers `error` by trying to recover in place
/// (stop, check the file, resume at the last position) before it decides.
pub open spec fn needs_in_place(error: DslError) -> bool {
    !is_end_of_file(error) && !(error matches DslError::FileIo(_))
}

/// What the network source's reconnect loop does next: another attempt
/// after a delay while attempts remain, else give up.
pub open spec fn reconnect_plan(config: RetryConfig, attempt: u32, sample: u32) -> Option<u64> {
    if attempt < config.max_attempts {
        Some(crate::backoff::retry_delay(config, attempt as nat, sample) as u64)
    } else {
        None
    }
}

/// The delay before reconnect attempt `attempt`, or `None` once the retry
/// budget is spent.
pub fn next_reconnect_delay(config: &RetryConfig, attempt: u32, jitter_sample: u32) -> (r: Option<u64>)
    ensures
        r == reconnect_plan(*config, attempt, jitter_sample),
{
    if attempt < config.max_attempts {
        Some(crate::backoff::calculate_delay(config, attempt, jitter_sample))
    } else {
        None
    }
}

/// The control-plane state of a file source.
#[derive(Debug)]
pub struct FileSourceState {
    pub name: String,
    pub loop_on_eof: bool,
    pub restart_count: u32,
    pub state: StreamState,
    pub errors: u64,
    /// Playback position in nanoseconds, if known.
    pub position: Option<u64>,
}

/// `x + 1`, or `x` at the top of `u64`.
pub open spec fn inc64(x: u64) -> u64 {
    if x < 0xffff_ffff_ffff_ffff {
        (x + 1) as u64
    } else {
        x
    }
}

impl FileSourceState {
    /// Idle, looping at end of file, nothing counted.
    pub fn new(name: String) -> (r: FileSourceState)
        ensures
            r.name@ == name@,
            r.loop_on_eof,
            r.restart_count == 0,
            r.state == StreamState::Idle,
            r.errors == 0,
            r.position.is_none(),
    {
        FileSourceState { name, loop_on_eof: true, restart_count: 0, state: StreamState::Idle, errors: 0, position: None }
    }

    pub fn set_loop_on_eof(&mut self, enable: bool)
        ensures
            final(self).loop_on_eof == enable,
            final(self).restart_count == old(self).restart_count,
            final(self).state == old(self).state,
            final(self).errors == old(self).errors,
            final(self).position == old(self).position,
    {
        self.loop_on_eof = enable;
    }

    pub fn get_restart_count(&self) -> (r: u32)
        ensures
            r == self.restart_count,
    {
        self.restart_count
    }

    /// Whether `error` calls for an in-place recovery attempt before
    /// `handle_error` decides.
    pub fn needs_in_place_recovery(error: &DslError) -> (r: bool)
        ensures
            r == needs_in_place(*error),
    {
        match error {
            DslError::Source(m) => !has_text(m.as_str(), "End of file"),
            DslError::FileIo(_) => false,
            _ => true,
        }
    }

    /// Count the error and decide. An end of file with looping rewinds to
    /// the start, counts a restart and is ignored (the caller seeks to the
    /// start); without looping the stream is removed. A file error retries.
    /// Any other error is ignored if the caller's in-place recovery
    /// (`recovered`) worked, else restarts.
    pub fn handle_error(&mut self, error: &DslError, recovered: bool) -> (r: RecoveryAction)
        ensures
            final(self).errors == inc64(old(self).errors),
            final(self).state == old(self).state,
            final(self).loop_on_eof == old(self).loop_on_eof,
            is_end_of_file(*error) && old(self).loop_on_eof ==> r == RecoveryAction::Ignore
                && final(self).restart_count == inc32(old(self).restart_count)
                && final(self).position == Some(0u64),
            !(is_end_of_file(*error) && old(self).loop_on_eof) ==> final(self).restart_count == old(self).restart_count
                && final(self).position == old(self).position,
            is_end_of_file(*error) && !old(self).loop_on_eof ==> r == RecoveryAction::Remove,
            (error matches DslError::FileIo(_)) ==> r == RecoveryAction::Retry,
            needs_in_place(*error) ==> r == if recovered { RecoveryAction::Ignore } else { RecoveryAction::Restart },
    {
        if self.errors < 0xffff_ffff_ffff_ffff {
            self.errors = self.errors + 1;
        }
        let eof = match error {
            DslError::Source(m) => has_text(m.as_str(), "End of file"),
            _ => false,
        };
        if eof {
            if self.loop_on_eof {
                self.restart_count = crate::pipeline::inc_u32(self.restart_count);
                self.position = Some(0);
                RecoveryAction::Ignore
            } else {
                RecoveryAction::Remove
            }
        } else {
            match error {
                DslError::FileIo(_) => RecoveryAction::Retry,
                _ => if recovered {
                    RecoveryAction::Ignore
                } else {
                    RecoveryAction::Restart
                },
            }
        }
    }
}

/// The control-plane state of a network source.
#[derive(Debug)]
pub struct RtspSourceState {
    pub name: String,
    pub retry_on_401: bool,
    pub state: StreamState,
    pub connection_state: ConnectionState,
    pub errors: u64,
    pub total_reconnects: u32,
}

impl RtspSourceState {
    /// Idle and disconnected, nothing counted.
    pub fn new(name: String, retry_on_401: bool) -> (r: RtspSourceState)
        ensures
            r.name@ == name@,
            r.retry_on_401 == retry_on_401,
            r.state == StreamState::Idle,
            r.connection_state == ConnectionState::Disconnected,
            r.errors == 0,
            r.total_reconnects == 0,
    {
        RtspSourceState {
            name,
            retry_on_401,
            state: StreamState::Idle,
            connection_state: ConnectionState::Disconnected,
            errors: 0,
            total_reconnects: 0,
        }
    }

    /// Count the error and decide, once the caller's reconnect loop has run
    /// (`reconnected` is its outcome). A reconnect counts, leaves the source
    /// Running and Connected, and consumes the error; otherwise the source is
    /// Failed and the error is classified (`rtsp_error_action`).
    pub fn handle_error(&mut self, error: &DslError, reconnected: bool) -> (r: RecoveryAction)
        ensures
            r == rtsp_error_action(*error, reconnected, old(self).retry_on_401),
            final(self).errors == inc64(old(self).errors),
            final(self).retry_on_401 == old(self).retry_on_401,
            reconnected ==> final(self).state == StreamState::Running
                && final(self).connection_state == ConnectionState::Connected
                && final(self).total_reconnects == inc32(old(self).total_reconnects),
            !reconnected ==> final(self).state == StreamState::Failed
                && final(self).connection_state == ConnectionState::Failed
                && final(self).total_reconnects == old(self).total_reconnects,
    {
        if self.errors < 0xffff_ffff_ffff_ffff {
            self.errors = self.errors + 1;
        }
        if reconnected {
            self.state = StreamState::Running;
            self.connection_state = ConnectionState::Connected;
            self.total_reconnects = crate::pipeline::inc_u32(self.total_reconnects);
        } else {
            self.state = StreamState::Failed;
            self.connection_state = ConnectionState::Failed;
        }
        rtsp_handle_error(error, reconnected, self.retry_on_401)
    }
}

/// A network error that names a missing stream (404), and not refused
/// credentials, a timeout or a refused connection, is answered with Remove
/// whatever the 401 setting.
pub proof fn lemma_not_found_is_removed(msg: Seq<char>, retry_on_401: bool)
    requires
        occurs_in(msg, "404"@),
        !occurs_in(msg, "401"@),
        !occurs_in(msg, "timeout"@),
        !occurs_in(msg, "Timeout"@),
        !occurs_in(msg, "connection refused"@),
    ensures
        network_error_action(msg, retry_on_401) == RecoveryAction::Remove,
{
}

} // verus!
