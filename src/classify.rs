//! The default mapping from a failure to a recovery action.
use vstd::prelude::*;

use crate::error::DslError;
use crate::model::RecoveryAction;
use crate::text::{has_text, occurs_in};

verus! {

/// The default action for `error` at a zero-based attempt, given the retry
/// budget: an exhausted budget escalates; credentials refused (401) ask for
/// a new source; a missing resource (404), a configuration error, resource
/// exhaustion or an end of file without looping remove the stream; other
/// network errors retry; a file error retries once, then restarts; anything
/// else restarts.
pub open spec fn default_action(error: DslError, attempt: u32, max_attempts: u32) -> RecoveryAction {
    if attempt >= max_attempts {
        RecoveryAction::Escalate
    } else {
        match error {
            DslError::Network(m) => if occurs_in(m@, "401"@) {
                RecoveryAction::Replace
            } else if occurs_in(m@, "404"@) {
                RecoveryAction::Remove
            } else {
                RecoveryAction::Retry
            },
            DslError::FileIo(_) => if attempt == 0 {
                RecoveryAction::Retry
            } else {
                RecoveryAction::Restart
            },
            DslError::Source(m) => if occurs_in(m@, "End of file"@) {
                RecoveryAction::Remove
            } else {
                RecoveryAction::Restart
            },
            DslError::Configuration(_) => RecoveryAction::Remove,
            DslError::ResourceExhaustion(_) => RecoveryAction::Remove,
            _ => RecoveryAction::Restart,
        }
    }
}

/// The action of the default mapping; see `default_action`.
pub fn classify_error(error: &DslError, attempt: u32, max_attempts: u32) -> (r: RecoveryAction)
    ensures
        r == default_action(*error, attempt, max_attempts),
{
    if attempt >= max_attempts {
        return RecoveryAction::Escalate;
    }
    match error {
        DslError::Network(m) => {
            if has_text(m.as_str(), "401") {
                RecoveryAction::Replace
            } else if has_text(m.as_str(), "404") {
                RecoveryAction::Remove
            } else {
                RecoveryAction::Retry
            }
        },
        DslError::FileIo(_) => {
            if attempt == 0 {
                RecoveryAction::Retry
            } else {
                RecoveryAction::Restart
            }
        },
        DslError::Source(m) => {
            if has_text(m.as_str(), "End of file") {
                RecoveryAction::Remove
            } else {
                RecoveryAction::Restart
            }
        },
        DslError::Configuration(_) => RecoveryAction::Remove,
        DslError::ResourceExhaustion(_) => RecoveryAction::Remove,
        _ => RecoveryAction::Restart,
    }
}

/// Whether an action counts as a successful recovery for the circuit
/// breaker and the telemetry.
pub open spec fn is_success(a: RecoveryAction) -> bool {
    a == RecoveryAction::Retry || a == RecoveryAction::Ignore || a == RecoveryAction::Restart
}

/// Retry, Ignore and Restart succeed; the other actions fail.
pub fn action_succeeds(a: RecoveryAction) -> (r: bool)
    ensures
        r == is_success(a),
{
    match a {
        RecoveryAction::Retry | RecoveryAction::Ignore | RecoveryAction::Restart => true,
        _ => false,
    }
}

} // verus!
