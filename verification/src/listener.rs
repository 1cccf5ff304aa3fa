//! The listener and the process loop's policy.
//!
//! The listener binds one fixed address at startup and then produces
//! connections one at a time, forever. The socket calls themselves live
//! outside the library; what stands here is every decision the loop makes —
//! bind failure is fatal with exit status 1, accept failure is logged and
//! skipped, a connection gets one session — and the exact text of each log
//! line the process emits.

use vstd::prelude::*;
use vstd::string::StringExecFns;

verus! {

/// The per-connection read deadline, in seconds: a single read that does not
/// complete within this window fails rather than blocking indefinitely.
pub const READ_DEADLINE_SECS: u64 = 15;

/// The process exit status after a bind failure.
pub const BIND_FAILURE_STATUS: i32 = 1;

/// The fixed address the listener binds at startup; immutable for the
/// process lifetime.
pub fn bind_address() -> (address: &'static str)
    ensures
        address@ == "127.0.0.1:8080"@,
{
    "127.0.0.1:8080"
}

/// What the process loop observes: the one-time bind outcome, then the
/// outcome of each accept attempt.
pub enum ListenerEvent {
    /// The fixed address could not be bound (port in use, permission denied).
    BindFailed,
    /// A connection was accepted; it is next in strict arrival order.
    Accepted,
    /// An accept attempt failed.
    AcceptFailed,
}

/// What the process does next.
#[derive(Debug, PartialEq, Eq)]
pub enum ListenerAction {
    /// Report the failure and exit the process with the given status; there
    /// is no retry.
    Exit(i32),
    /// Run one full session on the accepted connection, then accept again.
    RunSession,
    /// Log the failure and immediately try the next connection.
    SkipConnection,
}

/// The listener's error policy: bind failure alone is fatal, with exit
/// status 1; accept failures are never fatal and never end the accept loop;
/// every accepted connection gets exactly one session.
pub fn listener_step(event: ListenerEvent) -> (action: ListenerAction)
    ensures
        event is BindFailed ==> action == ListenerAction::Exit(BIND_FAILURE_STATUS),
        event is Accepted ==> action is RunSession,
        event is AcceptFailed ==> action is SkipConnection,
{
    match event {
        ListenerEvent::BindFailed => ListenerAction::Exit(BIND_FAILURE_STATUS),
        ListenerEvent::Accepted => ListenerAction::RunSession,
        ListenerEvent::AcceptFailed => ListenerAction::SkipConnection,
    }
}

/// The categories of log line the process emits.
pub enum LogKind {
    BindFailure,
    AcceptFailure,
    ConfigFailure,
    DecodeFailure,
    Report,
}

/// The fixed text each category of log line opens with; the rest of the
/// line is the error's own text, or the reported body.
pub fn log_prefix(kind: LogKind) -> (prefix: &'static str)
    ensures
        kind is BindFailure ==> prefix@ == "failed to open socket on port 8080: "@,
        kind is AcceptFailure ==> prefix@ == "failed to open incoming stream: "@,
        kind is ConfigFailure ==> prefix@ == "failed to set read timeout on incoming stream: "@,
        kind is DecodeFailure ==> prefix@ == "failed to convert buffer to string: "@,
        kind is Report ==> prefix@ == "received new response body: "@,
{
    match kind {
        LogKind::BindFailure => "failed to open socket on port 8080: ",
        LogKind::AcceptFailure => "failed to open incoming stream: ",
        LogKind::ConfigFailure => "failed to set read timeout on incoming stream: ",
        LogKind::DecodeFailure => "failed to convert buffer to string: ",
        LogKind::Report => "received new response body: ",
    }
}

/// One complete log line: the prefix followed by exactly the detail text.
/// A report line therefore contains the decoded body in full.
pub fn compose_line(prefix: &str, detail: &str) -> (line: String)
    ensures
        line@ == prefix@ + detail@,
{
    let mut line = prefix.to_owned();
    line.append(detail);
    line
}

} // verus!
