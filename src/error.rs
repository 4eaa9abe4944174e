//! The closed set of failure kinds that the supervisor distinguishes.
use vstd::prelude::*;
use vstd::string::*;

verus! {

/// Every failure kind that the supervisor tells apart; each carries a
/// human-readable detail message.
#[derive(Debug, Clone, PartialEq, Eq)]
pub enum DslError {
    Pipeline(String),
    Stream(String),
    Source(String),
    Sink(String),
    Network(String),
    FileIo(String),
    Configuration(String),
    StateTransition(String),
    ResourceExhaustion(String),
    RecoveryFailed(String),
    /// An error reported by the underlying multimedia framework.
    GStreamer(String),
    Other(String),
}

/// Result of every fallible public operation.
pub type DslResult<T> = Result<T, DslError>;

/// The name of an error's kind ("Network", "FileIo", ...).
pub open spec fn kind_name(e: DslError) -> Seq<char> {
    match e {
        DslError::Pipeline(_) => "Pipeline"@,
        DslError::Stream(_) => "Stream"@,
        DslError::Source(_) => "Source"@,
        DslError::Sink(_) => "Sink"@,
        DslError::Network(_) => "Network"@,
        DslError::FileIo(_) => "FileIo"@,
        DslError::Configuration(_) => "Configuration"@,
        DslError::StateTransition(_) => "StateTransition"@,
        DslError::ResourceExhaustion(_) => "ResourceExhaustion"@,
        DslError::RecoveryFailed(_) => "RecoveryFailed"@,
        DslError::GStreamer(_) => "GStreamer"@,
        DslError::Other(_) => "Other"@,
    }
}

/// The prefix that `DslError::message` puts before the detail text.
pub open spec fn error_prefix(e: DslError) -> Seq<char> {
    match e {
        DslError::Pipeline(_) => "Pipeline error: "@,
        DslError::Stream(_) => "Stream error: "@,
        DslError::Source(_) => "Source error: "@,
        DslError::Sink(_) => "Sink error: "@,
        DslError::Network(_) => "Network error: "@,
        DslError::FileIo(_) => "File I/O error: "@,
        DslError::Configuration(_) => "Configuration error: "@,
        DslError::StateTransition(_) => "State transition error: "@,
        DslError::ResourceExhaustion(_) => "Resource exhaustion: "@,
        DslError::RecoveryFailed(_) => "Recovery failed: "@,
        DslError::GStreamer(_) => "GStreamer error: "@,
        DslError::Other(_) => "Other error: "@,
    }
}

impl DslError {
    /// The detail text that the error carries.
    pub open spec fn detail(self) -> Seq<char> {
        match self {
            DslError::Pipeline(m) => m@,
            DslError::Stream(m) => m@,
            DslError::Source(m) => m@,
            DslError::Sink(m) => m@,
            DslError::Network(m) => m@,
            DslError::FileIo(m) => m@,
            DslError::Configuration(m) => m@,
            DslError::StateTransition(m) => m@,
            DslError::ResourceExhaustion(m) => m@,
            DslError::RecoveryFailed(m) => m@,
            DslError::GStreamer(m) => m@,
            DslError::Other(m) => m@,
        }
    }

    /// Borrow the detail text.
    pub fn detail_text(&self) -> (r: &String)
        ensures
            r@ == self.detail(),
    {
        match self {
            DslError::Pipeline(m) => m,
            DslError::Stream(m) => m,
            DslError::Source(m) => m,
            DslError::Sink(m) => m,
            DslError::Network(m) => m,
            DslError::FileIo(m) => m,
            DslError::Configuration(m) => m,
            DslError::StateTransition(m) => m,
            DslError::ResourceExhaustion(m) => m,
            DslError::RecoveryFailed(m) => m,
            DslError::GStreamer(m) => m,
            DslError::Other(m) => m,
        }
    }

    /// The name of the error's kind.
    pub fn kind(&self) -> (r: String)
        ensures
            r@ == kind_name(*self),
    {
        match self {
            DslError::Pipeline(_) => String::from_str("Pipeline"),
            DslError::Stream(_) => String::from_str("Stream"),
            DslError::Source(_) => String::from_str("Source"),
            DslError::Sink(_) => String::from_str("Sink"),
            DslError::Network(_) => String::from_str("Network"),
            DslError::FileIo(_) => String::from_str("FileIo"),
            DslError::Configuration(_) => String::from_str("Configuration"),
            DslError::StateTransition(_) => String::from_str("StateTransition"),
            DslError::ResourceExhaustion(_) => String::from_str("ResourceExhaustion"),
            DslError::RecoveryFailed(_) => String::from_str("RecoveryFailed"),
            DslError::GStreamer(_) => String::from_str("GStreamer"),
            DslError::Other(_) => String::from_str("Other"),
        }
    }

    /// The full message: a prefix naming the kind, then the detail text.
    pub fn message(&self) -> (r: String)
        ensures
            r@ == error_prefix(*self) + self.detail(),
    {
        let mut r = match self {
            DslError::Pipeline(_) => String::from_str("Pipeline error: "),
            DslError::Stream(_) => String::from_str("Stream error: "),
            DslError::Source(_) => String::from_str("Source error: "),
            DslError::Sink(_) => String::from_str("Sink error: "),
            DslError::Network(_) => String::from_str("Network error: "),
            DslError::FileIo(_) => String::from_str("File I/O error: "),
            DslError::Configuration(_) => String::from_str("Configuration error: "),
            DslError::StateTransition(_) => String::from_str("State transition error: "),
            DslError::ResourceExhaustion(_) => String::from_str("Resource exhaustion: "),
            DslError::RecoveryFailed(_) => String::from_str("Recovery failed: "),
            DslError::GStreamer(_) => String::from_str("GStreamer error: "),
            DslError::Other(_) => String::from_str("Other error: "),
        };
        r.append(self.detail_text().as_str());
        r
    }
}

} // verus!
