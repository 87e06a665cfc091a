use vstd::prelude::*;
use vstd::string::StringExecFns;

use crate::sink::StreamOrigin;

verus! {

/// Why the operating system refused to start the backend executable.
#[derive(Clone, Copy, Debug, PartialEq, Eq, Structural)]
pub enum RefusalKind {
    /// No executable exists at the given path.
    Missing,
    /// The file exists but the system will not run it (permissions, format).
    NotExecutable,
    /// The system refused the spawn for another reason (resources, policy).
    Refused,
}

/// The backend executable could not be launched.  This is a degraded-mode
/// condition for the host application, never a fatal one: the host logs the
/// message and keeps running without a backend.
#[derive(Debug)]
pub struct LaunchError {
    /// Why the spawn was refused.
    pub kind: RefusalKind,
    /// The operating system's own description of the refusal.
    pub message: String,
}

impl LaunchError {
    /// The error as a log line, as the host application prints it.
    pub fn describe(&self) -> (r: String)
        ensures
            r@ == "Failed to start backend: "@ + self.message@,
    {
        let mut s = String::from_str("Failed to start backend: ");
        s.append(self.message.as_str());
        s
    }
}

/// The child wrote a line that is not valid UTF-8 text.  The supervisor
/// keeps the bytes verbatim in the sink and flags them; this error only
/// reports the event and never aborts the supervisor.
#[derive(Clone, Copy, Debug, PartialEq, Eq, Structural)]
pub struct StreamDecodeError {
    /// The stream the malformed line arrived on.
    pub origin: StreamOrigin,
}

impl StreamDecodeError {
    /// The error as a log line, naming the stream the malformed line came
    /// from.
    pub fn describe(&self) -> (r: String)
        ensures
            self.origin is Stdout ==> r@ == "Backend wrote a line that is not valid text on "@
                + "stdout"@,
            self.origin is Stderr ==> r@ == "Backend wrote a line that is not valid text on "@
                + "stderr"@,
    {
        let mut s = String::from_str("Backend wrote a line that is not valid text on ");
        s.append(self.origin.tag());
        s
    }
}

/// The child process could not be terminated on shutdown.  Best-effort:
/// the host logs the message and exits anyway.
#[derive(Debug)]
pub struct ShutdownError {
    /// The identifier of the process that would not terminate.
    pub pid: u32,
    /// The operating system's own description of the failure.
    pub message: String,
}

impl ShutdownError {
    /// The error as a log line, as the host application prints it.
    pub fn describe(&self) -> (r: String)
        ensures
            r@ == "Failed to stop backend: "@ + self.message@,
    {
        let mut s = String::from_str("Failed to stop backend: ");
        s.append(self.message.as_str());
        s
    }
}

} // verus!
