use vstd::prelude::*;
use crate::status::{ServerStatus, ServerError, DEFAULT_PORT, describes};
use crate::http::{worker_url, detect_url, DETECT_PATH};

verus! {

/// What `start` does on the state it finds.
#[derive(Debug, Clone, Copy, PartialEq, Eq)]
pub enum StartStep {
    /// A process is stored: probe its health once and report that status.
    CheckExisting,
    /// No process is stored: spawn one and hand the outcome to `record_spawn`.
    Spawn,
}

/// What `status` does on the state it finds.
#[derive(Debug, Clone, PartialEq, Eq)]
pub enum StatusStep {
    /// Report this status without any network call.
    Report(ServerStatus),
    /// Probe the worker's health once and hand the verdict to `status_after_probe`.
    Probe,
}

/// The supervisor's state: the slot for at most one worker process handle of
/// type `H`, and the port the worker listens on. Callers keep it behind one
/// lock and change it only through these operations.
pub struct AIServerState<H> {
    process: Option<H>,
    port: u16,
}

impl<H> AIServerState<H> {
    /// The stored process handle, if any.
    pub closed spec fn stored(&self) -> Option<H> {
        self.process
    }

    /// The worker's port.
    pub closed spec fn port_spec(&self) -> u16 {
        self.port
    }

    /// What `start` decides on this state.
    pub open spec fn start_step(&self) -> StartStep {
        if self.stored() is Some {
            StartStep::CheckExisting
        } else {
            StartStep::Spawn
        }
    }

    /// The state after a spawn that yielded `handle` was recorded.
    pub closed spec fn with_process(&self, handle: H) -> Self {
        AIServerState { process: Some(handle), port: self.port }
    }

    /// The state after `stop` took the stored handle.
    pub closed spec fn emptied(&self) -> Self {
        AIServerState { process: None, port: self.port }
    }

    /// Whether `status` reports the worker running, given the verdict a probe
    /// would give.
    pub open spec fn reports_running(&self, healthy: bool) -> bool {
        self.stored() is Some && healthy
    }

    /// An empty slot on the default port.
    pub fn new() -> (r: Self)
        ensures
            r.stored() is None,
            r.port_spec() == DEFAULT_PORT,
    {
        AIServerState { process: None, port: DEFAULT_PORT }
    }

    /// An empty slot on `port`.
    pub fn with_port(port: u16) -> (r: Self)
        ensures
            r.stored() is None,
            r.port_spec() == port,
    {
        AIServerState { process: None, port }
    }

    /// The worker's port.
    pub fn port(&self) -> (r: u16)
        ensures
            r == self.port_spec(),
    {
        self.port
    }

    /// Whether a process handle is stored.
    pub fn has_process(&self) -> (r: bool)
        ensures
            r == (self.stored() is Some),
    {
        self.process.is_some()
    }

    /// Decides `start`: a stored process is never spawned again.
    pub fn begin_start(&self) -> (r: StartStep)
        ensures
            r == self.start_step(),
    {
        if self.process.is_some() {
            StartStep::CheckExisting
        } else {
            StartStep::Spawn
        }
    }

    /// Records the outcome of the spawn that `begin_start` asked for: a new
    /// handle is stored, a failure is reported and leaves the slot empty.
    pub fn record_spawn(&mut self, outcome: Result<H, String>) -> (r: Result<(), ServerError>)
        requires
            old(self).stored() is None,
        ensures
            match outcome {
                Ok(handle) => r is Ok
                    && final(self).stored() == Some(handle)
                    && final(self).port_spec() == old(self).port_spec()
                    && *final(self) == old(self).with_process(handle),
                Err(message) => r == Err::<(), ServerError>(ServerError::Spawn(message))
                    && *final(self) == *old(self),
            },
    {
        match outcome {
            Ok(handle) => {
                self.process = Some(handle);
                Ok(())
            },
            Err(message) => Err(ServerError::Spawn(message)),
        }
    }

    /// The result of `start` once the readiness wait has ended: running where
    /// the worker became healthy, a startup timeout otherwise. The stored
    /// handle is kept either way.
    pub fn startup_result(&self, ready: bool) -> (r: Result<ServerStatus, ServerError>)
        ensures
            ready ==> (r matches Ok(s) && describes(s, true, self.port_spec())),
            !ready ==> r == Err::<ServerStatus, ServerError>(ServerError::StartupTimeout),
    {
        if ready {
            Ok(ServerStatus::new(true, self.port))
        } else {
            Err(ServerError::StartupTimeout)
        }
    }

    /// Takes the stored handle out of the slot for termination outside the
    /// lock; the slot is empty afterwards.
    pub fn take_for_stop(&mut self) -> (r: Option<H>)
        ensures
            r == old(self).stored(),
            final(self).stored() is None,
            final(self).port_spec() == old(self).port_spec(),
            *final(self) == old(self).emptied(),
    {
        self.process.take()
    }

    /// Decides `status`: with no stored process the answer is known at once.
    pub fn status_step(&self) -> (r: StatusStep)
        ensures
            self.stored() is None ==> (r matches StatusStep::Report(s) && describes(s, false, self.port_spec())),
            self.stored() is Some ==> r is Probe,
    {
        if self.process.is_some() {
            StatusStep::Probe
        } else {
            StatusStep::Report(ServerStatus::new(false, self.port))
        }
    }

    /// The status once a probe of the stored process gave `healthy`.
    pub fn status_after_probe(&self, healthy: bool) -> (r: ServerStatus)
        ensures
            describes(r, self.reports_running(healthy), self.port_spec()),
    {
        ServerStatus::new(self.process.is_some() && healthy, self.port)
    }

    /// Where a detection request goes: the worker's detection URL while a
    /// process is stored, `NotRunning` otherwise. Health is not checked.
    pub fn detect_target(&self) -> (r: Result<String, ServerError>)
        ensures
            self.stored() is None ==> r == Err::<String, ServerError>(ServerError::NotRunning),
            self.stored() is Some ==> (r matches Ok(url) && url@ == worker_url(self.port_spec(), DETECT_PATH@)),
    {
        if self.process.is_some() {
            Ok(detect_url(self.port))
        } else {
            Err(ServerError::NotRunning)
        }
    }
}

/// The result of `stop` once the taken handle, if any, was killed: `killed` is
/// `None` where nothing was taken, else the outcome of the kill.
pub fn stop_result(killed: Option<Result<(), String>>) -> (r: Result<(), ServerError>)
    ensures
        match killed {
            None => r is Ok,
            Some(Ok(())) => r is Ok,
            Some(Err(message)) => r == Err::<(), ServerError>(ServerError::Terminate(message)),
        },
{
    match killed {
        Some(Err(message)) => Err(ServerError::Terminate(message)),
        _ => Ok(()),
    }
}

/// The state reached when starts run one after another under the lock from
/// `s`, start `i` spawning `handles[i]` whenever it finds the slot empty,
/// with the number of processes spawned on the way.
pub open spec fn serialized_starts<H>(s: AIServerState<H>, handles: Seq<H>) -> (AIServerState<H>, nat)
    decreases handles.len(),
{
    if handles.len() == 0 {
        (s, 0)
    } else {
        let (t, n) = serialized_starts(s, handles.drop_last());
        match t.start_step() {
            StartStep::Spawn => (t.with_process(handles.last()), n + 1),
            StartStep::CheckExisting => (t, n),
        }
    }
}

/// A second `start` without a `stop` in between spawns nothing: once a spawn
/// is recorded, `start` finds the process and only checks it, leaving the
/// stored handle as it is.
pub proof fn start_is_idempotent<H>(s: AIServerState<H>, handle: H)
    requires
        s.stored() is None,
    ensures
        s.start_step() is Spawn,
        s.with_process(handle).start_step() is CheckExisting,
        s.with_process(handle).stored() == Some(handle),
        s.with_process(handle).port_spec() == s.port_spec(),
{
}

/// `stop` on an empty slot takes nothing and leaves the state as it was.
pub proof fn stop_on_empty_is_noop<H>(s: AIServerState<H>)
    requires
        s.stored() is None,
    ensures
        s.emptied() == s,
{
}

/// A stored process whose health probe fails is reported as not running; a
/// stored process is reported running exactly when its probe succeeds.
pub proof fn status_follows_probe<H>(s: AIServerState<H>, healthy: bool)
    requires
        s.stored() is Some,
    ensures
        s.reports_running(healthy) == healthy,
        !s.reports_running(false),
{
}

/// Any number of starts, serialized by the lock from an empty slot, spawn
/// exactly one process: the first one's. Every status taken afterwards with a
/// healthy probe reports the worker running.
pub proof fn serialized_starts_spawn_once<H>(s: AIServerState<H>, handles: Seq<H>)
    requires
        s.stored() is None,
        handles.len() >= 1,
    ensures
        serialized_starts(s, handles).1 == 1,
        serialized_starts(s, handles).0.stored() == Some(handles[0]),
        serialized_starts(s, handles).0.port_spec() == s.port_spec(),
        serialized_starts(s, handles).0.reports_running(true),
    decreases handles.len(),
{
    if handles.len() > 1 {
        serialized_starts_spawn_once(s, handles.drop_last());
        assert(handles.drop_last()[0] == handles[0]);
        let t = serialized_starts(s, handles.drop_last()).0;
        assert(t.start_step() is CheckExisting);
    } else {
        assert(handles.drop_last().len() == 0);
        assert(serialized_starts(s, handles.drop_last()) == (s, 0nat));
        assert(handles.last() == handles[0]);
    }
}

/// After `stop`, the slot is empty: `status` answers "not running" without a
/// probe, `detect` is refused, and the next `start` spawns anew.
pub proof fn stop_then_status_needs_no_probe<H>(s: AIServerState<H>, healthy: bool)
    ensures
        s.emptied().stored() is None,
        !s.emptied().reports_running(healthy),
        s.emptied().start_step() is Spawn,
        s.emptied().port_spec() == s.port_spec(),
{
}

} // verus!
