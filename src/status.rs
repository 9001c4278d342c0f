use vstd::prelude::*;

verus! {

/// The port the worker listens on unless configured otherwise.
pub const DEFAULT_PORT: u16 = 8000;

/// The version reported with every status.
pub const SERVER_VERSION: &'static str = "1.0.0";

/// What callers are told about the worker: derived on demand, never stored.
#[derive(Debug, Clone, PartialEq, Eq)]
pub struct ServerStatus {
    pub running: bool,
    pub port: u16,
    pub version: String,
}

/// `s` reports `running` on `port` with the fixed version.
pub open spec fn describes(s: ServerStatus, running: bool, port: u16) -> bool {
    &&& s.running == running
    &&& s.port == port
    &&& s.version@ == SERVER_VERSION@
}

impl ServerStatus {
    /// The status reporting `running` on `port`.
    pub fn new(running: bool, port: u16) -> (r: ServerStatus)
        ensures
            describes(r, running, port),
    {
        ServerStatus { running, port, version: String::from_str(SERVER_VERSION) }
    }
}

/// The failures that lifecycle and proxy operations report to their caller.
#[derive(Debug, Clone, PartialEq, Eq)]
pub enum ServerError {
    /// The worker executable could not be located or launched.
    Spawn(String),
    /// The worker was spawned but did not become healthy before the deadline;
    /// its process stays stored.
    StartupTimeout,
    /// The operating system refused to kill the worker.
    Terminate(String),
    /// A request needed the worker but no process is stored.
    NotRunning,
    /// The request could not be sent or its answer not received.
    Transport(String),
    /// The worker answered with a status outside 2xx.
    Worker { status: u16, body: String },
    /// The worker's answer could not be read or decoded.
    Decode(String),
}

} // verus!
