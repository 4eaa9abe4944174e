//! Decisions of the file and network sinks: rotation, recording names,
//! error answers, the server's launch description and rate figures.
use vstd::prelude::*;
use vstd::string::*;

use crate::error::DslError;
use crate::model::RecoveryAction;
use crate::text::{has_text, occurs_in};

verus! {

/// The character of a decimal digit.
pub open spec fn digit_char(d: nat) -> char {
    if d == 0 {
        '0'
    } else if d == 1 {
        '1'
    } else if d == 2 {
        '2'
    } else if d == 3 {
        '3'
    } else if d == 4 {
        '4'
    } else if d == 5 {
        '5'
    } else if d == 6 {
        '6'
    } else if d == 7 {
        '7'
    } else if d == 8 {
        '8'
    } else {
        '9'
    }
}

/// The decimal digits of `n`, most significant first, without leading zeros.
pub open spec fn decimal(n: nat) -> Seq<char>
    decreases n,
{
    if n < 10 {
        seq![digit_char(n)]
    } else {
        decimal(n / 10).push(digit_char(n % 10))
    }
}

/// Relies on the `Display` of `u64` (through `to_string`): the decimal
/// digits of the number, with no sign and no leading zeros.
#[verifier::external_body]
fn decimal_text(n: u64) -> (r: String)
    ensures
        r@ == decimal(n as nat),
{
    n.to_string()
}

/// Rotation policy of a recording sink; the interval is milliseconds.
#[derive(Debug, Clone)]
pub struct RotationConfig {
    pub enable_size_rotation: bool,
    pub max_file_size: u64,
    pub enable_time_rotation: bool,
    pub rotation_interval_ms: u64,
    pub max_files: Option<usize>,
    pub base_filename: String,
    pub directory: String,
}

impl Default for RotationConfig {
    /// Rotate at 100 MiB, no time rotation (hourly when enabled), keep ten
    /// files named "recording..." in the current directory.
    fn default() -> (r: RotationConfig)
        ensures
            r.enable_size_rotation,
            r.max_file_size == 104857600,
            !r.enable_time_rotation,
            r.rotation_interval_ms == 3600000,
            r.max_files == Some(10usize),
            r.base_filename@ == "recording"@,
            r.directory@ == "."@,
    {
        RotationConfig {
            enable_size_rotation: true,
            max_file_size: 104857600,
            enable_time_rotation: false,
            rotation_interval_ms: 3600000,
            max_files: Some(10),
            base_filename: String::from_str("recording"),
            directory: String::from_str("."),
        }
    }
}

/// Whether the current file must be rotated: it reached the size limit or
/// has been written for the rotation interval, for the checks enabled.
pub open spec fn rotation_due(config: RotationConfig, current_size: u64, elapsed_ms: u64) -> bool {
    (config.enable_size_rotation && current_size >= config.max_file_size) || (config.enable_time_rotation
        && elapsed_ms >= config.rotation_interval_ms)
}

pub fn check_rotation_needed(config: &RotationConfig, current_size: u64, elapsed_ms: u64) -> (r: bool)
    ensures
        r == rotation_due(*config, current_size, elapsed_ms),
{
    let mut needs_rotation = false;
    if config.enable_size_rotation && current_size >= config.max_file_size {
        needs_rotation = true;
    }
    if config.enable_time_rotation && elapsed_ms >= config.rotation_interval_ms {
        needs_rotation = true;
    }
    needs_rotation
}

/// `<base>_<sink>_<timestamp>_<count>.mp4`: the name of a recording file.
pub open spec fn recording_name(base: Seq<char>, sink: Seq<char>, timestamp: u64, count: u32) -> Seq<char> {
    base + "_"@ + sink + "_"@ + decimal(timestamp as nat) + "_"@ + decimal(count as nat) + ".mp4"@
}

pub fn generate_filename(base: &str, sink_name: &str, timestamp_s: u64, count: u32) -> (r: String)
    ensures
        r@ == recording_name(base@, sink_name@, timestamp_s, count),
{
    let mut r = String::from_str(base);
    r.append("_");
    r.append(sink_name);
    r.append("_");
    let t = decimal_text(timestamp_s);
    r.append(t.as_str());
    r.append("_");
    let c = decimal_text(count as u64);
    r.append(c.as_str());
    r.append(".mp4");
    r
}

/// How many of `existing` recordings to delete, oldest first, to keep at
/// most `max_files`.
pub fn excess_files(existing: usize, max_files: usize) -> (r: usize)
    ensures
        r == if existing > max_files { existing - max_files } else { 0 },
{
    if existing > max_files {
        existing - max_files
    } else {
        0
    }
}

/// Whether a write error message says the disk is full.
pub open spec fn disk_full(msg: Seq<char>) -> bool {
    occurs_in(msg, "space"@) || occurs_in(msg, "full"@)
}

/// Whether a recording sink answers `error` by rotating to a new file
/// before it decides: a file error that is not a full disk.
pub open spec fn rotates_on(error: DslError) -> bool {
    match error {
        DslError::FileIo(m) => !disk_full(m@),
        _ => false,
    }
}

pub fn needs_rotation_on_error(error: &DslError) -> (r: bool)
    ensures
        r == rotates_on(*error),
{
    match error {
        DslError::FileIo(m) => !(has_text(m.as_str(), "space") || has_text(m.as_str(), "full")),
        _ => false,
    }
}

/// A recording sink's answer to an error: a file error is ignored if the
/// rotation to a new file (`rotated`) worked and restarts otherwise (a full
/// disk always restarts); resource exhaustion removes the sink; anything
/// else retries.
pub open spec fn file_sink_action(error: DslError, rotated: bool) -> RecoveryAction {
    match error {
        DslError::FileIo(m) => if !disk_full(m@) && rotated {
            RecoveryAction::Ignore
        } else {
            RecoveryAction::Restart
        },
        DslError::ResourceExhaustion(_) => RecoveryAction::Remove,
        _ => RecoveryAction::Retry,
    }
}

pub fn file_sink_handle_error(error: &DslError, rotated: bool) -> (r: RecoveryAction)
    ensures
        r == file_sink_action(*error, rotated),
{
    match error {
        DslError::FileIo(m) => {
            let full = has_text(m.as_str(), "space") || has_text(m.as_str(), "full");
            if !full && rotated {
                RecoveryAction::Ignore
            } else {
                RecoveryAction::Restart
            }
        },
        DslError::ResourceExhaustion(_) => RecoveryAction::Remove,
        _ => RecoveryAction::Retry,
    }
}

/// Bits per second from bytes written over the uptime in whole seconds
/// (plus one, so that a fresh sink does not divide by zero), capped at the
/// top of `u64`.
pub open spec fn bitrate_of(bytes_written: u64, uptime_s: u64) -> int {
    let b = bytes_written as int * 8 / (uptime_s as int + 1);
    if b <= 0xffff_ffff_ffff_ffff {
        b
    } else {
        0xffff_ffff_ffff_ffff
    }
}

pub fn sink_bitrate(bytes_written: u64, uptime_s: u64) -> (r: u64)
    ensures
        r == bitrate_of(bytes_written, uptime_s),
{
    let b: u128 = bytes_written as u128 * 8 / (uptime_s as u128 + 1);
    if b <= 0xffff_ffff_ffff_ffff_u128 {
        b as u64
    } else {
        0xffff_ffff_ffff_ffff_u64
    }
}

/// Settings of the network (RTSP) server sink.
#[derive(Debug, Clone)]
pub struct RtspServerConfig {
    pub port: u16,
    pub mount_point: String,
    pub protocols: u32,
    pub max_clients: Option<u32>,
    pub enable_authentication: bool,
    pub username: Option<String>,
    pub password: Option<String>,
    pub multicast_address: Option<String>,
    pub enable_rate_adaptation: bool,
    /// Seconds.
    pub key_frame_interval: u32,
}

impl Default for RtspServerConfig {
    /// Port 8554 at "/stream", TCP, UDP and multicast, no client cap, no
    /// authentication, rate adaptation on, a key frame every two seconds.
    fn default() -> (r: RtspServerConfig)
        ensures
            r.port == 8554,
            r.mount_point@ == "/stream"@,
            r.protocols == 7,
            r.max_clients.is_none(),
            !r.enable_authentication,
            r.username.is_none(),
            r.password.is_none(),
            r.multicast_address.is_none(),
            r.enable_rate_adaptation,
            r.key_frame_interval == 2,
    {
        RtspServerConfig {
            port: 8554,
            mount_point: String::from_str("/stream"),
            protocols: 7,
            max_clients: None,
            enable_authentication: false,
            username: None,
            password: None,
            multicast_address: None,
            enable_rate_adaptation: true,
            key_frame_interval: 2,
        }
    }
}

/// The frames between key frames at 30 frames per second.
pub open spec fn key_frame_distance(interval_s: u32) -> int {
    interval_s as int * 30
}

/// The media factory's launch description for a key-frame interval in
/// seconds.
pub open spec fn launch_description(interval_s: u32) -> Seq<char> {
    "( videotestsrc is-live=true ! video/x-raw,width=1920,height=1080,framerate=30/1 ! x264enc tune=zerolatency bitrate=4000 key-int-max="@
        + decimal(key_frame_distance(interval_s) as nat) + " ! rtph264pay name=pay0 pt=96 )"@
}

pub fn build_launch_string(key_frame_interval: u32) -> (r: String)
    ensures
        r@ == launch_description(key_frame_interval),
{
    let mut r = String::from_str(
        "( videotestsrc is-live=true ! video/x-raw,width=1920,height=1080,framerate=30/1 ! x264enc tune=zerolatency bitrate=4000 key-int-max=",
    );
    let k = decimal_text(key_frame_interval as u64 * 30);
    r.append(k.as_str());
    r.append(" ! rtph264pay name=pay0 pt=96 )");
    r
}

/// `rtsp://127.0.0.1:<port><mount>`: where the sink publishes.
pub fn publish_location(port: u16, mount_point: &str) -> (r: String)
    ensures
        r@ == "rtsp://127.0.0.1:"@ + decimal(port as nat) + mount_point@,
{
    let mut r = String::from_str("rtsp://127.0.0.1:");
    let p = decimal_text(port as u64);
    r.append(p.as_str());
    r.append(mount_point);
    r
}

/// A server sink's answer to an error: network errors and client errors
/// are absorbed (a key frame is forced, or the rate adapted); anything else
/// restarts.
pub open spec fn rtsp_sink_action(error: DslError) -> RecoveryAction {
    match error {
        DslError::Network(_) => RecoveryAction::Ignore,
        DslError::Sink(m) => if occurs_in(m@, "client"@) {
            RecoveryAction::Ignore
        } else {
            RecoveryAction::Restart
        },
        _ => RecoveryAction::Restart,
    }
}

pub fn rtsp_sink_handle_error(error: &DslError) -> (r: RecoveryAction)
    ensures
        r == rtsp_sink_action(*error),
{
    match error {
        DslError::Network(_) => RecoveryAction::Ignore,
        DslError::Sink(m) => if has_text(m.as_str(), "client") {
            RecoveryAction::Ignore
        } else {
            RecoveryAction::Restart
        },
        _ => RecoveryAction::Restart,
    }
}

/// Above this many clients the server lowers its rate.
pub const ADAPT_CLIENT_LIMIT: usize = 10;

/// Whether the server should lower its rate for `clients` viewers.
pub fn should_adapt_bandwidth(enabled: bool, clients: usize) -> (r: bool)
    ensures
        r == (enabled && clients > ADAPT_CLIENT_LIMIT),
{
    enabled && clients > ADAPT_CLIENT_LIMIT
}

} // verus!
