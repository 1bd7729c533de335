//! The session's shared state and the worker's lifecycle:
//! `NotStarted -> Starting -> Ready -> Stopped`, with `Starting -> Failed`
//! when the handshake fails.

use vstd::prelude::*;
use crate::sidecar::{LineVerdict, line_verdict, scan_line};

verus! {

/// Where the worker stands in its lifecycle.
#[derive(PartialEq, Eq, Structural, Clone, Copy, Debug)]
pub enum WorkerPhase {
    NotStarted,
    Starting,
    Ready,
    Stopped,
    Failed,
}

/// Why the worker could not be brought up.
#[derive(PartialEq, Eq, Structural, Clone, Copy, Debug)]
pub enum WorkerError {
    /// The worker executable could not be started.
    SpawnFailed,
    /// The worker's output ended, could not be read, or announced a port
    /// that is not one, before a port was announced.
    HandshakeFailed,
}

/// What one line of output did to a handshake in progress.
#[derive(PartialEq, Eq, Structural, Clone, Copy, Debug)]
pub enum HandshakeStep {
    /// Not the announcement: keep reading.
    Continue,
    /// The worker is ready on this port.
    Ready(u16),
    /// The announcement was malformed.
    Failed(WorkerError),
}

/// Application state shared by the supervisor and the status queries.
pub struct AppState {
    /// Per-session bearer token of the relay.
    pub bridge_token: String,
    /// Port the relay listens on (loopback only).
    pub bridge_port: u16,
    /// Port the worker listens on, once it has announced it.
    pub hono_port: Option<u16>,
    /// Process id of the worker, used to stop it.
    pub sidecar_pid: Option<u32>,
    /// Where the worker stands in its lifecycle.
    pub phase: WorkerPhase,
}

/// Status of the worker's server, as the front-end sees it.
#[derive(PartialEq, Eq, Structural, Clone, Copy, Debug)]
pub struct ServerStatus {
    /// Whether the worker's server is running and reachable.
    pub running: bool,
    /// The port the worker's server listens on, if it runs.
    pub port: Option<u16>,
}

impl AppState {
    /// The worker's port and process id are set together and cleared
    /// together, and a ready worker is tracked.
    pub open spec fn wf(&self) -> bool {
        &&& self.hono_port.is_some() == self.sidecar_pid.is_some()
        &&& self.phase == WorkerPhase::Ready ==> self.hono_port.is_some()
    }

    /// Whether a worker is tracked.
    pub open spec fn tracks_worker(&self) -> bool {
        self.sidecar_pid.is_some()
    }

    /// The state once the worker is stopped: nothing tracked.
    pub open spec fn stop_spec(self) -> AppState {
        AppState { hono_port: None, sidecar_pid: None, phase: WorkerPhase::Stopped, ..self }
    }

    /// The state once a new start has begun: a worker tracked before is
    /// handed over to be stopped and no longer tracked.
    pub open spec fn begin_start_spec(self) -> AppState {
        AppState { hono_port: None, sidecar_pid: None, phase: WorkerPhase::Starting, ..self }
    }

    /// The state once the worker `pid` wrote `line` during the handshake.
    pub open spec fn line_spec(self, pid: u32, line: Seq<char>) -> AppState {
        match line_verdict(line) {
            LineVerdict::Port(p) => AppState {
                hono_port: Some(p),
                sidecar_pid: Some(pid),
                phase: WorkerPhase::Ready,
                ..self
            },
            LineVerdict::Malformed => AppState { phase: WorkerPhase::Failed, ..self },
            LineVerdict::Other => self,
        }
    }

    /// The state once the handshake has ended without an announcement.
    pub open spec fn fail_spec(self) -> AppState {
        AppState { phase: WorkerPhase::Failed, ..self }
    }

    /// A fresh session: the relay is bound and no worker is started yet.
    pub fn new(bridge_token: String, bridge_port: u16) -> (r: AppState)
        ensures
            r.wf(),
            r.bridge_token == bridge_token,
            r.bridge_port == bridge_port,
            r.hono_port is None,
            r.sidecar_pid is None,
            r.phase == WorkerPhase::NotStarted,
    {
        AppState { bridge_token, bridge_port, hono_port: None, sidecar_pid: None, phase: WorkerPhase::NotStarted }
    }

    /// Begins a start of the worker. A worker tracked so far is superseded:
    /// its process id is returned, to be stopped, and no longer tracked.
    pub fn begin_start(&mut self) -> (r: Option<u32>)
        requires
            old(self).wf(),
        ensures
            final(self).wf(),
            r == old(self).sidecar_pid,
            *final(self) == old(self).begin_start_spec(),
    {
        let r = self.sidecar_pid;
        self.hono_port = None;
        self.sidecar_pid = None;
        self.phase = WorkerPhase::Starting;
        r
    }

    /// Takes one line of the output of the worker `pid` during the handshake.
    pub fn handshake_line(&mut self, pid: u32, line: &str) -> (r: HandshakeStep)
        requires
            old(self).wf(),
        ensures
            final(self).wf(),
            *final(self) == old(self).line_spec(pid, line@),
            r == match line_verdict(line@) {
                LineVerdict::Port(p) => HandshakeStep::Ready(p),
                LineVerdict::Malformed => HandshakeStep::Failed(WorkerError::HandshakeFailed),
                LineVerdict::Other => HandshakeStep::Continue,
            },
    {
        match scan_line(line) {
            LineVerdict::Port(p) => {
                self.hono_port = Some(p);
                self.sidecar_pid = Some(pid);
                self.phase = WorkerPhase::Ready;
                HandshakeStep::Ready(p)
            },
            LineVerdict::Malformed => {
                self.phase = WorkerPhase::Failed;
                HandshakeStep::Failed(WorkerError::HandshakeFailed)
            },
            LineVerdict::Other => HandshakeStep::Continue,
        }
    }

    /// Records that the start failed for `e`: the worker could not be spawned,
    /// or its output ended or could not be read before it announced a port.
    pub fn fail_start(&mut self, e: WorkerError) -> (r: WorkerError)
        requires
            old(self).wf(),
        ensures
            final(self).wf(),
            *final(self) == old(self).fail_spec(),
            r == e,
    {
        self.phase = WorkerPhase::Failed;
        e
    }

    /// Stops tracking the worker. Returns the process id to signal, if one
    /// was tracked; calling it with no worker is no error.
    pub fn stop(&mut self) -> (r: Option<u32>)
        requires
            old(self).wf(),
        ensures
            final(self).wf(),
            r == old(self).sidecar_pid,
            *final(self) == old(self).stop_spec(),
    {
        let r = self.sidecar_pid;
        self.hono_port = None;
        self.sidecar_pid = None;
        self.phase = WorkerPhase::Stopped;
        r
    }
}

/// Starting the worker again without stopping it first supersedes the first
/// start: once the new worker announces its port, only the new worker's
/// process id and port are tracked (the earlier id was handed back by
/// `begin_start`, to be stopped).
pub proof fn lemma_restart_supersedes(s: AppState, pid: u32, line: Seq<char>, port: u16)
    requires
        s.wf(),
        line_verdict(line) == LineVerdict::Port(port),
    ensures
        s.begin_start_spec().wf(),
        !s.begin_start_spec().tracks_worker(),
        s.begin_start_spec().line_spec(pid, line).wf(),
        s.begin_start_spec().line_spec(pid, line).sidecar_pid == Some(pid),
        s.begin_start_spec().line_spec(pid, line).hono_port == Some(port),
        s.begin_start_spec().line_spec(pid, line).phase == WorkerPhase::Ready,
{
}

/// Stopping with no worker running signals nothing and leaves the session
/// cleared.
pub proof fn lemma_stop_when_idle(s: AppState)
    requires
        s.wf(),
        !s.tracks_worker(),
    ensures
        s.sidecar_pid is None,
        s.stop_spec().wf(),
        s.stop_spec().hono_port is None,
        s.stop_spec().sidecar_pid is None,
{
}

/// A worker whose output ends before it announces a port leaves the session
/// failed, with no port and no process id recorded.
pub proof fn lemma_silent_worker_fails(s: AppState)
    requires
        s.wf(),
    ensures
        s.begin_start_spec().fail_spec().wf(),
        s.begin_start_spec().fail_spec().phase == WorkerPhase::Failed,
        s.begin_start_spec().fail_spec().hono_port is None,
        s.begin_start_spec().fail_spec().sidecar_pid is None,
{
}

/// The status of the worker's server.
pub fn get_server_status(state: &AppState) -> (r: ServerStatus)
    ensures
        r.running == state.hono_port.is_some(),
        r.port == state.hono_port,
{
    ServerStatus { running: state.hono_port.is_some(), port: state.hono_port }
}

} // verus!
