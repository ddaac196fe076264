//! The sidecar supervisor: one process at most, from request to exit.
//!
//! The supervisor performs no operating-system work. The host tells it what
//! happened as an [`Event`]; the supervisor moves to its next state and answers
//! with the [`Action`] that the host has to carry out.

use vstd::prelude::*;
use crate::output::{ChannelModel, OutputChannel};
use crate::process::{ChildProcessHandle, SidecarSpawnFailure, SpawnFailureCause};

verus! {

/// Where the supervisor stands in the life of its sidecar.
#[derive(Clone, Copy, Debug, PartialEq, Eq, Structural)]
pub enum Phase {
    /// No process was asked for yet.
    NotStarted,
    /// The host was told to create the process and has not answered.
    Starting,
    /// The process was created and is the supervisor's child.
    Running(ChildProcessHandle),
    /// The process could not be created. The application goes on without it.
    Failed(SidecarSpawnFailure),
    /// The child is gone, or the application shut down before there was one.
    Terminated,
}

/// What the host reports to the supervisor.
#[derive(Clone, Copy, Debug, PartialEq, Eq, Structural)]
pub enum Event {
    /// The application wants the sidecar started.
    StartRequested,
    /// The host created a process.
    Spawned(ChildProcessHandle),
    /// The host could not create the process.
    SpawnFailed(SpawnFailureCause),
    /// A process that the host had created has exited.
    Exited(ChildProcessHandle),
    /// The application is about to exit.
    ShutdownRequested,
}

/// What the host has to do in answer to an event.
#[derive(Clone, Copy, Debug, PartialEq, Eq, Structural)]
pub enum Action {
    /// Nothing.
    Nothing,
    /// Create the sidecar process from the bundled executable.
    Spawn,
    /// Tell the user that the sidecar is up; the handle is that of the child.
    Announce(ChildProcessHandle),
    /// Surface the failure. Whether it ends the application is the host's choice.
    Report(SidecarSpawnFailure),
    /// Terminate this process.
    Terminate(ChildProcessHandle),
}

/// The supervisor as a mathematical value.
pub struct SupervisorModel {
    pub phase: Phase,
    pub output: ChannelModel,
}

impl SupervisorModel {
    /// The supervisor of an application that has just come up.
    pub open spec fn initial() -> Self {
        SupervisorModel { phase: Phase::NotStarted, output: ChannelModel::unopened() }
    }

    /// The process that the supervisor owns, if it owns one.
    pub open spec fn child(self) -> Option<ChildProcessHandle> {
        match self.phase {
            Phase::Running(child) => Some(child),
            _ => None,
        }
    }

    /// The state after `event`.
    ///
    /// A process is asked for once, from `NotStarted`. The answer to that
    /// request is taken while `Starting`: a created process becomes the child
    /// and gets a fresh channel, a failure is kept. The child's exit and the
    /// application's shutdown both end in `Terminated` with the channel closed.
    /// Every other event leaves the state as it is.
    pub open spec fn next(self, event: Event) -> Self {
        match (self.phase, event) {
            (Phase::NotStarted, Event::StartRequested) => SupervisorModel {
                phase: Phase::Starting,
                output: self.output,
            },
            (Phase::Starting, Event::Spawned(child)) => SupervisorModel {
                phase: Phase::Running(child),
                output: ChannelModel::fresh(),
            },
            (Phase::Starting, Event::SpawnFailed(cause)) => SupervisorModel {
                phase: Phase::Failed(SidecarSpawnFailure { cause }),
                output: self.output,
            },
            (Phase::Running(child), Event::Exited(gone)) => if gone == child {
                SupervisorModel { phase: Phase::Terminated, output: self.output.closed() }
            } else {
                self
            },
            (Phase::Running(_), Event::ShutdownRequested) => SupervisorModel {
                phase: Phase::Terminated,
                output: self.output.closed(),
            },
            (Phase::NotStarted, Event::ShutdownRequested)
            | (Phase::Starting, Event::ShutdownRequested) => SupervisorModel {
                phase: Phase::Terminated,
                output: self.output,
            },
            _ => self,
        }
    }

    /// What the host has to do in answer to `event`, received in this state.
    ///
    /// A created process that does not become the child is terminated at once,
    /// unless it is the child reported a second time. At shutdown the child is
    /// terminated.
    pub open spec fn action(self, event: Event) -> Action {
        match (self.phase, event) {
            (Phase::NotStarted, Event::StartRequested) => Action::Spawn,
            (Phase::Starting, Event::Spawned(child)) => Action::Announce(child),
            (Phase::Starting, Event::SpawnFailed(cause)) => Action::Report(
                SidecarSpawnFailure { cause },
            ),
            (Phase::Running(child), Event::Spawned(other)) => if other == child {
                Action::Nothing
            } else {
                Action::Terminate(other)
            },
            (_, Event::Spawned(other)) => Action::Terminate(other),
            (Phase::Running(child), Event::ShutdownRequested) => Action::Terminate(child),
            _ => Action::Nothing,
        }
    }

    /// How phase and channel belong together: only a running child has an
    /// open channel, and before there was a child nothing was ever written.
    pub open spec fn consistent(self) -> bool {
        &&& self.output.open ==> self.phase is Running
        &&& (self.phase is NotStarted || self.phase is Starting || self.phase is Failed)
            ==> self.output == ChannelModel::unopened()
    }

    /// The state after the host handed over `bytes` that a process wrote.
    pub open spec fn recorded(self, bytes: Seq<u8>) -> Self {
        SupervisorModel { phase: self.phase, output: self.output.write(bytes) }
    }

    /// The state after a reader took all output that was waiting.
    pub open spec fn drained(self) -> Self {
        SupervisorModel { phase: self.phase, output: self.output.drained() }
    }

    /// The state after the output channel was closed by hand.
    pub open spec fn output_closed(self) -> Self {
        SupervisorModel { phase: self.phase, output: self.output.closed() }
    }
}

/// Supervises the one sidecar of an application.
pub struct Supervisor {
    phase: Phase,
    output: OutputChannel,
}

impl View for Supervisor {
    type V = SupervisorModel;

    closed spec fn view(&self) -> SupervisorModel {
        SupervisorModel { phase: self.phase, output: self.output@ }
    }
}

impl Supervisor {
    /// A supervisor that has not started anything.
    pub fn new() -> (supervisor: Self)
        ensures
            supervisor@ == SupervisorModel::initial(),
    {
        Supervisor { phase: Phase::NotStarted, output: OutputChannel::unopened() }
    }

    /// Takes in what the host reports and says what the host has to do.
    ///
    /// Starting the sidecar is an exchange of two calls. The host reports
    /// `StartRequested` and is answered `Spawn`; it tries to create the
    /// process and reports `Spawned` or `SpawnFailed`. The first is answered
    /// `Announce` with the child's handle, and the output channel is open from
    /// then on; the second is answered `Report` with the failure. No input
    /// makes this function panic.
    pub fn handle(&mut self, event: Event) -> (action: Action)
        ensures
            final(self)@ == old(self)@.next(event),
            action == old(self)@.action(event),
    {
        match (self.phase, event) {
            (Phase::NotStarted, Event::StartRequested) => {
                self.phase = Phase::Starting;
                Action::Spawn
            },
            (Phase::Starting, Event::Spawned(child)) => {
                self.phase = Phase::Running(child);
                self.output = OutputChannel::new();
                Action::Announce(child)
            },
            (Phase::Starting, Event::SpawnFailed(cause)) => {
                let failure = SidecarSpawnFailure { cause };
                self.phase = Phase::Failed(failure);
                Action::Report(failure)
            },
            (Phase::Running(child), Event::Spawned(other)) => {
                if other == child {
                    Action::Nothing
                } else {
                    Action::Terminate(other)
                }
            },
            (_, Event::Spawned(other)) => Action::Terminate(other),
            (Phase::Running(child), Event::Exited(gone)) => {
                if gone == child {
                    self.phase = Phase::Terminated;
                    self.output.close();
                }
                Action::Nothing
            },
            (Phase::Running(child), Event::ShutdownRequested) => {
                self.phase = Phase::Terminated;
                self.output.close();
                Action::Terminate(child)
            },
            (Phase::NotStarted, Event::ShutdownRequested)
            | (Phase::Starting, Event::ShutdownRequested) => {
                self.phase = Phase::Terminated;
                Action::Nothing
            },
            _ => Action::Nothing,
        }
    }

    /// Takes in `bytes` that the child wrote to its standard output or
    /// standard error, and says whether the channel accepted them.
    pub fn record_output(&mut self, bytes: &[u8]) -> (accepted: bool)
        ensures
            final(self)@ == old(self)@.recorded(bytes@),
            accepted == old(self)@.output.open,
    {
        self.output.write(bytes)
    }

    /// Hands out the output that waits, oldest byte first.
    pub fn read_output(&mut self) -> (bytes: Vec<u8>)
        ensures
            bytes@ == old(self)@.output.pending,
            final(self)@ == old(self)@.drained(),
    {
        self.output.read()
    }

    /// Closes the output channel while the child may still run.
    pub fn close_output(&mut self)
        ensures
            final(self)@ == old(self)@.output_closed(),
    {
        self.output.close();
    }

    /// Where the supervisor stands.
    pub fn phase(&self) -> (phase: Phase)
        ensures
            phase == self@.phase,
    {
        self.phase
    }

    /// The handle of the child, while there is one.
    pub fn child(&self) -> (child: Option<ChildProcessHandle>)
        ensures
            child == self@.child(),
    {
        match self.phase {
            Phase::Running(child) => Some(child),
            _ => None,
        }
    }

    /// Whether the supervisor owns a process right now.
    pub fn is_running(&self) -> (running: bool)
        ensures
            running == self@.child().is_some(),
    {
        match self.phase {
            Phase::Running(_) => true,
            _ => false,
        }
    }

    /// The output channel, to look at.
    pub fn output(&self) -> (channel: &OutputChannel)
        ensures
            channel@ == self@.output,
    {
        &self.output
    }
}

} // verus!
