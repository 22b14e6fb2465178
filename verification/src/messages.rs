//! The human-readable messages that the inbound commands hand to the
//! presentation layer, with their content pinned down exactly.

use vstd::prelude::*;
use vstd::string::StringExecFns;

use crate::resolver::ResolutionError;
use crate::supervisor::{StartError, StopError};

verus! {

/// The message returned by a successful start.
pub fn start_success_message() -> (r: String)
    ensures
        r@ == "Python bridge started successfully"@,
{
    String::from_str("Python bridge started successfully")
}

/// The message returned by a successful stop.
pub fn stop_success_message() -> (r: String)
    ensures
        r@ == "Python bridge stopped successfully"@,
{
    String::from_str("Python bridge stopped successfully")
}

/// The message of a resolution failure, as a spec-level string.
pub open spec fn resolution_message_spec(e: ResolutionError) -> Seq<char> {
    match e {
        ResolutionError::UnsupportedPlatform => "Unsupported platform"@,
        ResolutionError::AppDirUnavailable => "Failed to get app directory"@,
    }
}

/// The message of a resolution failure.
pub fn resolution_message(e: &ResolutionError) -> (r: String)
    ensures
        r@ == resolution_message_spec(*e),
{
    match e {
        ResolutionError::UnsupportedPlatform => String::from_str("Unsupported platform"),
        ResolutionError::AppDirUnavailable => String::from_str("Failed to get app directory"),
    }
}

/// The message of a failed start. A resolution failure keeps the resolver's
/// own message; an early exit yields the message prefix, to which the caller
/// may append its rendering of the exit status.
pub fn start_error_message(e: &StartError) -> (r: String)
    ensures
        match *e {
            StartError::AlreadyRunning => r@ == "Python bridge is already running"@,
            StartError::ResolutionFailed(re) => r@ == resolution_message_spec(re),
            StartError::SpawnFailed(m) => r@ == "Failed to start Python bridge: "@ + m@,
            StartError::ExitedImmediately(_) => r@
                == "Python bridge exited immediately with status: "@,
        },
{
    match e {
        StartError::AlreadyRunning => String::from_str("Python bridge is already running"),
        StartError::ResolutionFailed(re) => resolution_message(re),
        StartError::SpawnFailed(m) => String::from_str("Failed to start Python bridge: ").concat(
            m.as_str(),
        ),
        StartError::ExitedImmediately(_) => String::from_str(
            "Python bridge exited immediately with status: ",
        ),
    }
}

/// The message of a failed stop.
pub fn stop_error_message(e: &StopError) -> (r: String)
    ensures
        match *e {
            StopError::NotRunning => r@ == "Python bridge is not running"@,
            StopError::KillFailed(m) => r@ == "Failed to stop Python bridge: "@ + m@,
        },
{
    match e {
        StopError::NotRunning => String::from_str("Python bridge is not running"),
        StopError::KillFailed(m) => String::from_str("Failed to stop Python bridge: ").concat(
            m.as_str(),
        ),
    }
}

} // verus!
