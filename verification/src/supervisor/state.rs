//! The supervisor's record of its worker, and the decisions of the launcher, of the health
//! monitor and of the restart policy.
//!
//! The record is mutated only through the methods of [`Supervisor`], each of which is one
//! complete transition: a reader that takes turns with them never sees a port without an owned
//! worker, nor a restart counter above the ceiling.
//!
//! A launch reports `spawn_failed`, or `worker_spawned` and then `await_handshake` until that
//! says the launch is done. The monitor reports each probe to `on_probe` and does what it is
//! told; a restart it is told to make is a launch like any other. `stop` ends it all.

use crate::supervisor::handshake::{handshake_wait, wait_step, WaitStep};
use vstd::prelude::*;

verus! {

/// The most restarts that are attempted within one failure episode.
pub const RESTART_CEILING: u32 = 5;

/// The time between two liveness probes, in milliseconds.
pub const HEALTH_INTERVAL_MS: u64 = 5_000;

/// The pause between reaping a dead worker and launching the next, in milliseconds.
pub const RESTART_GRACE_MS: u64 = 500;

/// Where the supervisor stands with its worker.
#[derive(Clone, Copy, Debug, PartialEq, Eq, Structural)]
pub enum Phase {
    /// No worker is owned: none was started yet, or it was stopped, or it could not be spawned.
    Stopped,
    /// A worker was spawned and has not announced its port yet.
    Starting,
    /// The worker announced its port.
    Running,
    /// The owned worker is dead: it was killed at the handshake deadline.
    Crashed,
    /// The restart policy allowed another attempt, which has not spawned a worker yet.
    Restarting,
    /// The restart ceiling was reached. Nothing is restarted automatically any more.
    Failed,
}

/// Why a launch failed.
#[derive(Clone, Copy, Debug, PartialEq, Eq, Structural)]
pub enum LaunchError {
    /// The worker binary was not found or could not be spawned.
    SpawnFailure,
    /// The worker was spawned and announced no port before the deadline.
    HandshakeTimeout,
}

/// Why a restart failed.
#[derive(Clone, Copy, Debug, PartialEq, Eq)]
pub enum RestartError {
    /// The restart ceiling was reached: no worker was launched.
    LimitExceeded,
    /// The restart was allowed and its launch failed.
    Launch(LaunchError),
}

/// The answer to a query for the port while no handshake stands.
#[derive(Clone, Copy, Debug, PartialEq, Eq, Structural)]
pub struct NotReady;

/// What a liveness probe of the owned worker found.
#[derive(Clone, Copy, Debug, PartialEq, Eq, Structural)]
pub enum Probe {
    /// The worker runs.
    Alive,
    /// The worker has exited.
    Exited,
    /// There is no worker to probe.
    NoHandle,
}

/// What has to be done before the worker is launched again.
#[derive(Clone, Copy, Debug, PartialEq, Eq)]
pub struct RestartPlan {
    /// Kill the worker that is still owned and wait for its exit.
    pub reap_stale: bool,
    /// Then pause for this many milliseconds.
    pub grace_ms: u64,
}

/// What the health monitor does after a probe.
#[derive(Clone, Copy, Debug, PartialEq, Eq)]
pub enum MonitorAction {
    /// Nothing.
    Nothing,
    /// Carry out the plan, then launch the worker again.
    Restart(RestartPlan),
    /// The restart ceiling was reached: kill the dead worker that is still owned, wait for its
    /// exit, and launch nothing.
    GiveUp,
}

/// What a launch that waits for the handshake does next.
#[derive(Clone, Copy, Debug, PartialEq, Eq)]
pub enum LaunchStep {
    /// Wait up to this many milliseconds more for the announcement.
    Wait(u64),
    /// The launch is over with `result`. Where `kill` is set, the spawned worker is killed
    /// and waited for.
    Done { result: Result<u16, LaunchError>, kill: bool },
}

/// The supervisor's record as a mathematical value.
pub struct SupervisorState {
    pub phase: Phase,
    pub port: Option<u16>,
    pub restarts: nat,
}

impl SupervisorState {
    /// The record before anything was started.
    pub open spec fn initial() -> SupervisorState {
        SupervisorState { phase: Phase::Stopped, port: None, restarts: 0 }
    }

    /// What holds of the record at all times: there is a port exactly while the worker runs,
    /// the restart counter is at most the ceiling, it is zero while the worker runs, and it
    /// stands at the ceiling where the episode has failed.
    pub open spec fn wf(self) -> bool {
        &&& self.port is Some <==> self.phase == Phase::Running
        &&& self.restarts <= RESTART_CEILING
        &&& self.phase == Phase::Running ==> self.restarts == 0
        &&& self.phase == Phase::Failed ==> self.restarts == RESTART_CEILING
    }

    /// Whether a worker is owned, alive or dead.
    pub open spec fn owns_handle(self) -> bool {
        self.phase == Phase::Starting || self.phase == Phase::Running || self.phase
            == Phase::Crashed
    }

    /// The answer to a query for the port.
    pub open spec fn current_port(self) -> Result<u16, NotReady> {
        match self.port {
            Some(port) => Ok(port),
            None => Err(NotReady),
        }
    }

    /// The record after a worker was spawned: it replaces whatever was owned.
    pub open spec fn spawned(self) -> SupervisorState {
        SupervisorState { phase: Phase::Starting, port: None, restarts: self.restarts }
    }

    /// The record after a spawn failed: a restart that was under way is over, anything else
    /// stays as it was.
    pub open spec fn spawn_failed(self) -> SupervisorState {
        if self.phase == Phase::Restarting {
            SupervisorState { phase: Phase::Stopped, port: None, restarts: self.restarts }
        } else {
            self
        }
    }

    /// The record after the spawned worker announced `port`: the worker is confirmed healthy,
    /// which ends the failure episode and resets the restart counter. An announcement that no
    /// launch waits for changes nothing.
    pub open spec fn handshake_completed(self, port: u16) -> SupervisorState {
        if self.phase == Phase::Starting {
            SupervisorState { phase: Phase::Running, port: Some(port), restarts: 0 }
        } else {
            self
        }
    }

    /// The record after the handshake deadline passed. A deadline that no launch waits for
    /// changes nothing.
    pub open spec fn handshake_timed_out(self) -> SupervisorState {
        if self.phase == Phase::Starting {
            SupervisorState { phase: Phase::Crashed, port: None, restarts: self.restarts }
        } else {
            self
        }
    }

    /// The record after a launch has waited `elapsed_ms` for the handshake and has been
    /// signalled `announced`.
    pub open spec fn awaited(self, elapsed_ms: u64, announced: Option<u16>) -> SupervisorState {
        match wait_step(elapsed_ms, announced) {
            WaitStep::Completed(port) => self.handshake_completed(port),
            WaitStep::KeepWaiting(_) => self,
            WaitStep::TimedOut => self.handshake_timed_out(),
        }
    }

    /// What such a launch does next. It succeeds with the announced port; it fails with
    /// `HandshakeTimeout` once the deadline has passed, and has the worker killed then. A launch
    /// that the record no longer waits for, because the supervisor was stopped in between,
    /// fails in the same way and has nothing left to kill.
    pub open spec fn launch_step(self, elapsed_ms: u64, announced: Option<u16>) -> LaunchStep {
        match wait_step(elapsed_ms, announced) {
            WaitStep::Completed(port) => LaunchStep::Done {
                result: if self.phase == Phase::Starting {
                    Ok(port)
                } else {
                    Err(LaunchError::HandshakeTimeout)
                },
                kill: false,
            },
            WaitStep::KeepWaiting(ms) => LaunchStep::Wait(ms),
            WaitStep::TimedOut => LaunchStep::Done {
                result: Err(LaunchError::HandshakeTimeout),
                kill: self.phase == Phase::Starting,
            },
        }
    }

    /// The restart counter as the restart policy finds it after a crash: zero where the worker
    /// had announced its port, unchanged where it had not. (In a well-formed record it is zero
    /// already while there is a port.)
    pub open spec fn restarts_after_crash(self) -> nat {
        if self.port is Some {
            0
        } else {
            self.restarts
        }
    }

    /// Whether the restart policy allows another attempt.
    pub open spec fn restart_allowed(self) -> bool {
        self.restarts < RESTART_CEILING
    }

    /// The record after the restart policy has decided.
    pub open spec fn restarted(self) -> SupervisorState {
        if self.restart_allowed() {
            SupervisorState { phase: Phase::Restarting, port: None, restarts: self.restarts + 1 }
        } else {
            SupervisorState { phase: Phase::Failed, port: None, restarts: self.restarts }
        }
    }

    /// What the restart policy answers.
    pub open spec fn restart_decision(self) -> Result<RestartPlan, RestartError> {
        if self.restart_allowed() {
            Ok(RestartPlan { reap_stale: self.owns_handle(), grace_ms: RESTART_GRACE_MS })
        } else {
            Err(RestartError::LimitExceeded)
        }
    }

    /// Whether a probe with this result is a crash that the monitor acts on: the worker has
    /// exited, and it is not one that a launch still waits for.
    pub open spec fn detects_crash(self, probe: Probe) -> bool {
        probe == Probe::Exited && (self.phase == Phase::Running || self.phase == Phase::Crashed)
    }

    /// The record as the restart policy finds it after a crash: the port is gone, and the
    /// counter starts anew where the worker had been healthy.
    pub open spec fn crashed(self) -> SupervisorState {
        SupervisorState { phase: Phase::Crashed, port: None, restarts: self.restarts_after_crash() }
    }

    /// The record after a probe.
    pub open spec fn probed(self, probe: Probe) -> SupervisorState {
        if self.detects_crash(probe) {
            self.crashed().restarted()
        } else {
            self
        }
    }

    /// What the monitor does after a probe.
    pub open spec fn monitor_action(self, probe: Probe) -> MonitorAction {
        if self.detects_crash(probe) {
            match self.crashed().restart_decision() {
                Ok(plan) => MonitorAction::Restart(plan),
                Err(_) => MonitorAction::GiveUp,
            }
        } else {
            MonitorAction::Nothing
        }
    }
}

/// A request to the owner of the record. Requests are served one at a time.
#[derive(Clone, Copy, Debug, PartialEq, Eq)]
pub enum Request {
    /// Which port does the worker listen on?
    CurrentPort,
    /// A worker was spawned; its handshake is awaited.
    WorkerSpawned,
    /// The worker binary was not found or could not be spawned.
    SpawnFailed,
    /// The spawned worker announced this port.
    HandshakeCompleted(u16),
    /// The handshake deadline passed without an announcement.
    HandshakeTimedOut,
    /// The health monitor probed the worker.
    Probe(Probe),
    /// Ask the restart policy for another attempt.
    Restart,
    /// Stop the supervisor.
    Stop,
}

/// The answer to a [`Request`].
#[derive(Clone, Copy, Debug, PartialEq, Eq)]
pub enum Reply {
    /// To `CurrentPort`.
    Port(Result<u16, NotReady>),
    /// To `WorkerSpawned`: whether a worker was replaced and has to be killed and reaped.
    Replaced(bool),
    /// To `SpawnFailed`: the error of the launch.
    LaunchFailed(LaunchError),
    /// To `HandshakeCompleted`: whether a launch was waiting for the announcement.
    Accepted(bool),
    /// To `HandshakeTimedOut`: whether the spawned worker has to be killed.
    Kill(bool),
    /// To `Probe`: what the monitor does.
    Monitor(MonitorAction),
    /// To `Restart`: what the restart policy answers.
    Restart(Result<RestartPlan, RestartError>),
    /// To `Stop`: whether a worker has to be killed and reaped.
    Stopped(bool),
}

impl SupervisorState {
    /// The record after `request` was served.
    pub open spec fn after(self, request: Request) -> SupervisorState {
        match request {
            Request::CurrentPort => self,
            Request::WorkerSpawned => self.spawned(),
            Request::SpawnFailed => self.spawn_failed(),
            Request::HandshakeCompleted(port) => self.handshake_completed(port),
            Request::HandshakeTimedOut => self.handshake_timed_out(),
            Request::Probe(probe) => self.probed(probe),
            Request::Restart => self.restarted(),
            Request::Stop => SupervisorState::initial(),
        }
    }

    /// The answer to `request`.
    pub open spec fn reply(self, request: Request) -> Reply {
        match request {
            Request::CurrentPort => Reply::Port(self.current_port()),
            Request::WorkerSpawned => Reply::Replaced(self.owns_handle()),
            Request::SpawnFailed => Reply::LaunchFailed(LaunchError::SpawnFailure),
            Request::HandshakeCompleted(_) => Reply::Accepted(self.phase == Phase::Starting),
            Request::HandshakeTimedOut => Reply::Kill(self.phase == Phase::Starting),
            Request::Probe(probe) => Reply::Monitor(self.monitor_action(probe)),
            Request::Restart => Reply::Restart(self.restart_decision()),
            Request::Stop => Reply::Stopped(self.owns_handle()),
        }
    }

    /// The record after the requests of `requests` were served in order.
    pub open spec fn after_all(self, requests: Seq<Request>) -> SupervisorState
        decreases requests.len(),
    {
        if requests.len() == 0 {
            self
        } else {
            self.after_all(requests.drop_last()).after(requests.last())
        }
    }
}

/// The supervisor's record of its worker: the phase, the port and the restart counter.
#[derive(Debug)]
pub struct Supervisor {
    phase: Phase,
    port: Option<u16>,
    restarts: u32,
}

impl View for Supervisor {
    type V = SupervisorState;

    closed spec fn view(&self) -> SupervisorState {
        SupervisorState { phase: self.phase, port: self.port, restarts: self.restarts as nat }
    }
}

impl Supervisor {
    #[verifier::type_invariant]
    spec fn well_formed(&self) -> bool {
        self@.wf()
    }

    /// A supervisor that has started nothing.
    pub fn new() -> (s: Supervisor)
        ensures
            s@ == SupervisorState::initial(),
            s@.wf(),
    {
        Supervisor { phase: Phase::Stopped, port: None, restarts: 0 }
    }

    /// The port of the running worker, or `NotReady` while no handshake stands.
    pub fn current_port(&self) -> (r: Result<u16, NotReady>)
        ensures
            r == self@.current_port(),
            self@.wf(),
    {
        proof {
            use_type_invariant(self);
        }
        match self.port {
            Some(port) => Ok(port),
            None => Err(NotReady),
        }
    }

    /// The answer to the application's query for the backend port: the port, or the error
    /// `not ready`, which a caller takes as passing and asks again.
    pub fn get_backend_port(&self) -> (r: Result<u16, String>)
        ensures
            match r {
                Ok(port) => self@.current_port() == Ok::<u16, NotReady>(port),
                Err(e) => self@.current_port() is Err && e@ == "not ready"@,
            },
            self@.wf(),
    {
        proof {
            use_type_invariant(self);
        }
        match self.port {
            Some(port) => Ok(port),
            None => Err("not ready".to_owned()),
        }
    }

    /// What the application tells its user while the backend cannot be used: nothing while the
    /// worker runs, `worker unavailable` once the episode has failed, `backend not available`
    /// at any other time.
    pub fn user_message(&self) -> (r: Option<&'static str>)
        ensures
            match r {
                None => self@.phase == Phase::Running,
                Some(m) => if self@.phase == Phase::Failed {
                    m@ == "worker unavailable"@
                } else {
                    self@.phase != Phase::Running && m@ == "backend not available"@
                },
            },
            self@.wf(),
    {
        proof {
            use_type_invariant(self);
        }
        match self.phase {
            Phase::Running => None,
            Phase::Failed => Some("worker unavailable"),
            _ => Some("backend not available"),
        }
    }

    /// The phase.
    pub fn phase(&self) -> (r: Phase)
        ensures
            r == self@.phase,
            self@.wf(),
    {
        proof {
            use_type_invariant(self);
        }
        self.phase
    }

    /// The number of restarts attempted in this episode.
    pub fn restart_count(&self) -> (r: u32)
        ensures
            r == self@.restarts,
            r <= RESTART_CEILING,
            self@.wf(),
    {
        proof {
            use_type_invariant(self);
        }
        self.restarts
    }

    /// Whether a worker is owned, alive or dead.
    pub fn owns_handle(&self) -> (r: bool)
        ensures
            r == self@.owns_handle(),
            self@.wf(),
    {
        proof {
            use_type_invariant(self);
        }
        match self.phase {
            Phase::Starting | Phase::Running | Phase::Crashed => true,
            _ => false,
        }
    }

    /// Records that a worker was spawned and that its handshake is awaited.
    ///
    /// Returns whether a worker was owned before: it is replaced by the new one, and the caller
    /// kills it and waits for its exit.
    pub fn worker_spawned(&mut self) -> (replaced: bool)
        ensures
            final(self)@ == old(self)@.spawned(),
            replaced == old(self)@.owns_handle(),
            final(self)@.wf(),
    {
        let replaced = self.owns_handle();
        proof {
            use_type_invariant(&*self);
        }
        *self = Supervisor { phase: Phase::Starting, port: None, restarts: self.restarts };
        replaced
    }

    /// Records that the worker binary was not found or could not be spawned.
    pub fn spawn_failed(&mut self) -> (e: LaunchError)
        ensures
            final(self)@ == old(self)@.spawn_failed(),
            e == LaunchError::SpawnFailure,
            final(self)@.wf(),
    {
        proof {
            use_type_invariant(&*self);
        }
        if self.phase == Phase::Restarting {
            *self = Supervisor { phase: Phase::Stopped, port: None, restarts: self.restarts };
        }
        LaunchError::SpawnFailure
    }

    /// Records that the spawned worker announced `port`: it is confirmed healthy, and the
    /// restart counter starts anew.
    ///
    /// Returns whether a launch was waiting for it. Where none was (the supervisor was stopped
    /// in between), nothing changes.
    pub fn handshake_completed(&mut self, port: u16) -> (accepted: bool)
        ensures
            final(self)@ == old(self)@.handshake_completed(port),
            accepted == (old(self)@.phase == Phase::Starting),
            final(self)@.wf(),
    {
        proof {
            use_type_invariant(&*self);
        }
        if self.phase == Phase::Starting {
            *self = Supervisor { phase: Phase::Running, port: Some(port), restarts: 0 };
            true
        } else {
            false
        }
    }

    /// Records that the handshake deadline passed without an announcement.
    ///
    /// Returns whether the spawned worker has to be killed: it has wherever a launch was
    /// waiting. The launch then fails with `LaunchError::HandshakeTimeout`.
    pub fn handshake_timed_out(&mut self) -> (kill: bool)
        ensures
            final(self)@ == old(self)@.handshake_timed_out(),
            kill == (old(self)@.phase == Phase::Starting),
            final(self)@.wf(),
    {
        proof {
            use_type_invariant(&*self);
        }
        if self.phase == Phase::Starting {
            *self = Supervisor { phase: Phase::Crashed, port: None, restarts: self.restarts };
            true
        } else {
            false
        }
    }

    /// One step of a launch that waits for the handshake: `elapsed_ms` is the time since the
    /// worker was spawned, `announced` the port that the reader of its output has signalled.
    ///
    /// `stream_closed` says whether the worker's output has ended. It does not shorten the wait.
    pub fn await_handshake(
        &mut self,
        elapsed_ms: u64,
        announced: Option<u16>,
        stream_closed: bool,
    ) -> (step: LaunchStep)
        ensures
            final(self)@ == old(self)@.awaited(elapsed_ms, announced),
            step == old(self)@.launch_step(elapsed_ms, announced),
            final(self)@.wf(),
    {
        match handshake_wait(elapsed_ms, announced, stream_closed) {
            WaitStep::Completed(port) => {
                let result = if self.handshake_completed(port) {
                    Ok(port)
                } else {
                    Err(LaunchError::HandshakeTimeout)
                };
                LaunchStep::Done { result, kill: false }
            },
            WaitStep::KeepWaiting(ms) => {
                proof {
                    use_type_invariant(&*self);
                }
                LaunchStep::Wait(ms)
            },
            WaitStep::TimedOut => {
                let kill = self.handshake_timed_out();
                LaunchStep::Done { result: Err(LaunchError::HandshakeTimeout), kill }
            },
        }
    }

    /// The restart policy: counts the attempt and allows it, or refuses it at the ceiling.
    ///
    /// On `Ok` the caller carries out the plan and launches the worker again. On
    /// `Err(RestartError::LimitExceeded)` nothing is launched, and a worker that is still
    /// owned is killed and reaped.
    pub fn restart(&mut self) -> (r: Result<RestartPlan, RestartError>)
        ensures
            final(self)@ == old(self)@.restarted(),
            r == old(self)@.restart_decision(),
            final(self)@.wf(),
    {
        proof {
            use_type_invariant(&*self);
        }
        if self.restarts < RESTART_CEILING {
            let reap_stale = self.owns_handle();
            *self = Supervisor {
                phase: Phase::Restarting,
                port: None,
                restarts: self.restarts + 1,
            };
            Ok(RestartPlan { reap_stale, grace_ms: RESTART_GRACE_MS })
        } else {
            *self = Supervisor { phase: Phase::Failed, port: None, restarts: self.restarts };
            Err(RestartError::LimitExceeded)
        }
    }

    /// One tick of the health monitor, given what the probe found.
    pub fn on_probe(&mut self, probe: Probe) -> (action: MonitorAction)
        ensures
            final(self)@ == old(self)@.probed(probe),
            action == old(self)@.monitor_action(probe),
            final(self)@.wf(),
    {
        proof {
            use_type_invariant(&*self);
        }
        let crash = match probe {
            Probe::Exited => match self.phase {
                Phase::Running | Phase::Crashed => true,
                _ => false,
            },
            _ => false,
        };
        if !crash {
            return MonitorAction::Nothing;
        }
        let restarts = if self.port.is_some() {
            0
        } else {
            self.restarts
        };
        *self = Supervisor { phase: Phase::Crashed, port: None, restarts };
        match self.restart() {
            Ok(plan) => MonitorAction::Restart(plan),
            Err(_) => MonitorAction::GiveUp,
        }
    }

    /// Stops the supervisor: the record is as if nothing had been started.
    ///
    /// Returns whether a worker was owned. It is killed, not asked to end, and waited for: no
    /// worker outlives the stop.
    pub fn stop(&mut self) -> (kill: bool)
        ensures
            final(self)@ == SupervisorState::initial(),
            kill == old(self)@.owns_handle(),
            final(self)@.wf(),
    {
        let kill = self.owns_handle();
        *self = Supervisor { phase: Phase::Stopped, port: None, restarts: 0 };
        kill
    }

    /// Serves one request: the single entry through which an owner of the record that takes
    /// requests from several threads mutates and reads it.
    pub fn handle(&mut self, request: Request) -> (reply: Reply)
        ensures
            final(self)@ == old(self)@.after(request),
            reply == old(self)@.reply(request),
            final(self)@.wf(),
    {
        match request {
            Request::CurrentPort => Reply::Port(self.current_port()),
            Request::WorkerSpawned => Reply::Replaced(self.worker_spawned()),
            Request::SpawnFailed => Reply::LaunchFailed(self.spawn_failed()),
            Request::HandshakeCompleted(port) => Reply::Accepted(self.handshake_completed(port)),
            Request::HandshakeTimedOut => Reply::Kill(self.handshake_timed_out()),
            Request::Probe(probe) => Reply::Monitor(self.on_probe(probe)),
            Request::Restart => Reply::Restart(self.restart()),
            Request::Stop => Reply::Stopped(self.stop()),
        }
    }
}

/// The result of a restart, from the result of its launch.
pub fn restart_outcome(launch: Result<u16, LaunchError>) -> (r: Result<u16, RestartError>)
    ensures
        r == (match launch {
            Ok(port) => Ok::<u16, RestartError>(port),
            Err(e) => Err(RestartError::Launch(e)),
        }),
{
    match launch {
        Ok(port) => Ok(port),
        Err(e) => Err(RestartError::Launch(e)),
    }
}

} // verus!
