//! Status messages, notification tags, and the fixed spawn and probe
//! parameters: every string the supervisor shows or relies on, stated once.

use vstd::prelude::*;
use crate::registry::StartAction;
use crate::registry::StopAction;

verus! {

/// The fixed port the sidecar server listens on.
pub const SERVER_PORT: u16 = 3147;

/// The sidecar binary's name, resolved by the host platform's packaging
/// mechanism.
pub fn sidecar_name() -> (name: &'static str)
    ensures
        name@ == "promptliano-server"@,
{
    "promptliano-server"
}

/// The single fixed argument pair the sidecar is spawned with.
pub fn sidecar_args() -> (args: (&'static str, &'static str))
    ensures
        args.0@ == "--port"@,
        args.1@ == "3147"@,
{
    ("--port", "3147")
}

/// The health route the probe targets.
pub fn health_probe_url() -> (url: &'static str)
    ensures
        url@ == "http://localhost:3147/api/health"@,
{
    "http://localhost:3147/api/health"
}

/// The tag of the notification delivered when the server becomes ready.
pub fn ready_notice_tag() -> (tag: &'static str)
    ensures
        tag@ == "promptliano-server-ready"@,
{
    "promptliano-server-ready"
}

/// The tag of the notification delivered when the server terminates.
pub fn terminated_notice_tag() -> (tag: &'static str)
    ensures
        tag@ == "promptliano-server-terminated"@,
{
    "promptliano-server-terminated"
}

/// The status message a successful start request returns: a report that the
/// server was already running, or that it is now starting.
pub fn start_reply(action: &StartAction) -> (message: &'static str)
    ensures
        action is AlreadyRunning ==> message@ == "Promptliano server is already running"@,
        action is Spawn ==> message@ == "Promptliano server starting on port 3147"@,
{
    match action {
        StartAction::AlreadyRunning => "Promptliano server is already running",
        StartAction::Spawn => "Promptliano server starting on port 3147",
    }
}

/// The status message a successful stop request returns: a report that the
/// tracked process was stopped, or that none was running.
pub fn stop_reply(action: &StopAction) -> (message: &'static str)
    ensures
        action is Kill ==> message@ == "Promptliano server stopped"@,
        action is NotRunning ==> message@ == "Promptliano server was not running"@,
{
    match action {
        StopAction::Kill(_) => "Promptliano server stopped",
        StopAction::NotRunning => "Promptliano server was not running",
    }
}

} // verus!
