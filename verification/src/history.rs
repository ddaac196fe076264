//! Histories of a supervisor, and what holds of every one of them.
//!
//! A history is a sequence of [`Step`]s, one for each call that may change a
//! supervisor. The functions here say what a history amounts to; the proofs
//! show what holds whatever the host reports, and in whatever order.

use vstd::prelude::*;
use crate::output::ChannelModel;
use crate::process::{ChildProcessHandle, SidecarSpawnFailure, SpawnFailureCause};
use crate::supervisor::{Action, Event, Phase, SupervisorModel};

verus! {

/// One call on a supervisor that may change it.
pub enum Step {
    /// `handle` with this event.
    Handle(Event),
    /// `record_output` with these bytes.
    RecordOutput(Seq<u8>),
    /// `read_output`.
    ReadOutput,
    /// `close_output`.
    CloseOutput,
}

impl SupervisorModel {
    /// The state after one step.
    pub open spec fn step(self, step: Step) -> Self {
        match step {
            Step::Handle(event) => self.next(event),
            Step::RecordOutput(bytes) => self.recorded(bytes),
            Step::ReadOutput => self.drained(),
            Step::CloseOutput => self.output_closed(),
        }
    }

    /// What the host is told to do at one step.
    pub open spec fn step_action(self, step: Step) -> Action {
        match step {
            Step::Handle(event) => self.action(event),
            _ => Action::Nothing,
        }
    }

    /// The bytes that a reader receives at one step.
    pub open spec fn step_yield(self, step: Step) -> Seq<u8> {
        match step {
            Step::ReadOutput => self.output.pending,
            _ => Seq::empty(),
        }
    }

    /// The bytes that the channel takes in at one step.
    pub open spec fn step_intake(self, step: Step) -> Seq<u8> {
        match step {
            Step::RecordOutput(bytes) => if self.output.open {
                bytes
            } else {
                Seq::empty()
            },
            _ => Seq::empty(),
        }
    }

    /// The state after all of `steps`, taken in order.
    pub open spec fn after(self, steps: Seq<Step>) -> Self
        decreases steps.len(),
    {
        if steps.len() == 0 {
            self
        } else {
            self.after(steps.drop_last()).step(steps.last())
        }
    }

    /// How often, over `steps`, the host was told to create a process.
    pub open spec fn spawn_requests(self, steps: Seq<Step>) -> nat
        decreases steps.len(),
    {
        if steps.len() == 0 {
            0
        } else {
            let before = self.after(steps.drop_last());
            let earlier = self.spawn_requests(steps.drop_last());
            if before.step_action(steps.last()) == Action::Spawn {
                earlier + 1
            } else {
                earlier
            }
        }
    }

    /// The processes in the host's hands after `steps`: those that it
    /// reported as created, less those that it reported as gone and those
    /// that it was told to terminate. At the outset it is the child alone.
    pub open spec fn live_processes(self, steps: Seq<Step>) -> Set<ChildProcessHandle>
        decreases steps.len(),
    {
        if steps.len() == 0 {
            self.owned()
        } else {
            let before = self.after(steps.drop_last());
            let live = self.live_processes(steps.drop_last());
            match steps.last() {
                Step::Handle(event) => {
                    let reported = match event {
                        Event::Spawned(created) => live.insert(created),
                        Event::Exited(gone) => live.remove(gone),
                        _ => live,
                    };
                    match before.action(event) {
                        Action::Terminate(stopped) => reported.remove(stopped),
                        _ => reported,
                    }
                },
                _ => live,
            }
        }
    }

    /// The child as a set: one process, or none.
    pub open spec fn owned(self) -> Set<ChildProcessHandle> {
        match self.child() {
            Some(child) => set![child],
            None => Set::empty(),
        }
    }

    /// All bytes that readers received over `steps`, in the order received.
    pub open spec fn consumed(self, steps: Seq<Step>) -> Seq<u8>
        decreases steps.len(),
    {
        if steps.len() == 0 {
            Seq::empty()
        } else {
            self.consumed(steps.drop_last()) + self.after(steps.drop_last()).step_yield(
                steps.last(),
            )
        }
    }

    /// All bytes that the channel took in over `steps`, in the order of
    /// arrival: what was handed over while the channel was open.
    pub open spec fn delivered(self, steps: Seq<Step>) -> Seq<u8>
        decreases steps.len(),
    {
        if steps.len() == 0 {
            Seq::empty()
        } else {
            self.delivered(steps.drop_last()) + self.after(steps.drop_last()).step_intake(
                steps.last(),
            )
        }
    }
}

/// A consistent state stays consistent, whatever happens.
pub proof fn lemma_consistency_is_kept(start: SupervisorModel, steps: Seq<Step>)
    requires
        start.consistent(),
    ensures
        start.after(steps).consistent(),
    decreases steps.len(),
{
    if steps.len() > 0 {
        lemma_consistency_is_kept(start, steps.drop_last());
    }
}

/// Every state that a new supervisor can reach is consistent.
pub proof fn lemma_reachable_states_are_consistent(steps: Seq<Step>)
    ensures
        SupervisorModel::initial().after(steps).consistent(),
{
    lemma_consistency_is_kept(SupervisorModel::initial(), steps);
}

/// A process is asked for only by a supervisor that has not started, and then
/// it has started: however often a start is requested, the host is told to
/// create a process at most once, and never again once the supervisor has
/// left `NotStarted`.
pub proof fn lemma_process_requested_at_most_once(start: SupervisorModel, steps: Seq<Step>)
    ensures
        start.spawn_requests(steps) <= 1,
        !(start.phase is NotStarted) ==> start.spawn_requests(steps) == 0,
        start.spawn_requests(steps) == 1 ==> !(start.after(steps).phase is NotStarted),
        !(start.phase is NotStarted) ==> !(start.after(steps).phase is NotStarted),
    decreases steps.len(),
{
    if steps.len() > 0 {
        lemma_process_requested_at_most_once(start, steps.drop_last());
    }
}

/// A start request that follows another changes nothing and asks for nothing.
pub proof fn lemma_repeated_start_is_idle(before: SupervisorModel)
    ensures
        before.next(Event::StartRequested).next(Event::StartRequested) == before.next(
            Event::StartRequested,
        ),
        before.next(Event::StartRequested).action(Event::StartRequested) == Action::Nothing,
{
}

/// At most one sidecar at a time: after any history, the processes in the
/// host's hands are the supervisor's child and nothing else.
pub proof fn lemma_at_most_one_process(start: SupervisorModel, steps: Seq<Step>)
    ensures
        start.live_processes(steps) == start.after(steps).owned(),
        start.live_processes(steps).finite(),
        start.live_processes(steps).len() <= 1,
    decreases steps.len(),
{
    let end = start.after(steps);
    if steps.len() > 0 {
        lemma_at_most_one_process(start, steps.drop_last());
        assert(start.live_processes(steps) =~= end.owned());
    }
    match end.child() {
        Some(child) => {
            assert(end.owned().len() == 1);
        },
        None => {},
    }
}

/// A process becomes the child in one way only: it is created while the
/// supervisor is starting. That step, and no other, is announced, with the
/// handle of the new child, and it hands over a fresh channel. No other step
/// gives the supervisor a child or replaces the one it has.
pub proof fn lemma_child_comes_with_announcement(before: SupervisorModel, step: Step)
    ensures
        match before.step_action(step) {
            Action::Announce(child) => {
                &&& before.phase is Starting
                &&& step == Step::Handle(Event::Spawned(child))
                &&& before.step(step).phase == Phase::Running(child)
                &&& before.step(step).output == ChannelModel::fresh()
            },
            _ => before.step(step).child() == before.child() || before.step(step).child() is None,
        },
        forall|child: ChildProcessHandle|
            before.phase is Starting ==> #[trigger] before.action(Event::Spawned(child))
                == Action::Announce(child),
{
}

/// The phases in the order in which a supervisor can pass through them.
/// `Failed` and `Terminated` stand last, side by side.
pub open spec fn phase_rank(phase: Phase) -> nat {
    match phase {
        Phase::NotStarted => 0,
        Phase::Starting => 1,
        Phase::Running(_) => 2,
        Phase::Failed(_) => 3,
        Phase::Terminated => 3,
    }
}

/// There is no way back: whatever happens, the phase stays or moves on in the
/// order of `phase_rank`, and a phase that was left is never entered again. A
/// supervisor that has failed or terminated stays exactly there.
pub proof fn lemma_phase_never_goes_back(start: SupervisorModel, steps: Seq<Step>)
    ensures
        phase_rank(start.phase) <= phase_rank(start.after(steps).phase),
        phase_rank(start.phase) == phase_rank(start.after(steps).phase) ==> start.after(
            steps,
        ).phase == start.phase,
    decreases steps.len(),
{
    if steps.len() > 0 {
        lemma_phase_never_goes_back(start, steps.drop_last());
    }
}

/// A failed attempt to create the process harms nothing: the child, if there
/// is one, and the channel are as before. The failure is surfaced where a
/// process had been asked for, and there it is kept; anywhere else the report
/// is passed over.
pub proof fn lemma_failure_changes_no_process(before: SupervisorModel, cause: SpawnFailureCause)
    ensures
        before.next(Event::SpawnFailed(cause)).child() == before.child(),
        before.next(Event::SpawnFailed(cause)).output == before.output,
        before.phase is Starting ==> before.action(Event::SpawnFailed(cause)) == Action::Report(
            SidecarSpawnFailure { cause },
        ) && before.next(Event::SpawnFailed(cause)).phase == Phase::Failed(
            SidecarSpawnFailure { cause },
        ),
        !(before.phase is Starting) ==> before.action(Event::SpawnFailed(cause))
            == Action::Nothing && before.next(Event::SpawnFailed(cause)) == before,
{
}

/// Shutdown terminates the child and is final. The child, if there is one, is
/// the process that the host is told to terminate; no other action comes of a
/// shutdown. From then on the supervisor never owns a process again, asks for
/// none, and its channel takes nothing in.
pub proof fn lemma_shutdown_is_final(before: SupervisorModel, steps: Seq<Step>)
    requires
        before.consistent(),
    ensures
        before.action(Event::ShutdownRequested) == match before.child() {
            Some(child) => Action::Terminate(child),
            None => Action::Nothing,
        },
        before.next(Event::ShutdownRequested).after(steps).child() is None,
        !before.next(Event::ShutdownRequested).after(steps).output.open,
        before.next(Event::ShutdownRequested).spawn_requests(steps) == 0,
{
    let down = before.next(Event::ShutdownRequested);
    lemma_process_requested_at_most_once(down, steps);
    lemma_phase_never_goes_back(down, steps);
    lemma_closed_channel_stays_closed(down, steps);
}

/// Once the channel of a child is closed, by the child's exit, by shutdown or
/// by hand, it stays closed: what is handed over later is not taken in.
pub proof fn lemma_closed_channel_stays_closed(closed: SupervisorModel, steps: Seq<Step>)
    requires
        closed.phase is Running || closed.phase is Failed || closed.phase is Terminated,
        !closed.output.open,
    ensures
        closed.after(steps).phase is Running || closed.after(steps).phase is Failed
            || closed.after(steps).phase is Terminated,
        !closed.after(steps).output.open,
        closed.delivered(steps) == Seq::<u8>::empty(),
    decreases steps.len(),
{
    if steps.len() > 0 {
        lemma_closed_channel_stays_closed(closed, steps.drop_last());
    }
}

/// The channel loses nothing, adds nothing and keeps the order: what readers
/// received so far, followed by what still waits, is what waited at the outset
/// followed by all that the channel took in since.
pub proof fn lemma_output_is_complete_and_in_order(start: SupervisorModel, steps: Seq<Step>)
    requires
        start.consistent(),
    ensures
        start.consumed(steps) + start.after(steps).output.pending == start.output.pending
            + start.delivered(steps),
    decreases steps.len(),
{
    if steps.len() == 0 {
        assert(start.consumed(steps) + start.after(steps).output.pending =~= start.output.pending
            + start.delivered(steps));
    } else {
        let earlier = steps.drop_last();
        let before = start.after(earlier);
        lemma_output_is_complete_and_in_order(start, earlier);
        lemma_consistency_is_kept(start, earlier);
        let took = before.step_yield(steps.last());
        let came = before.step_intake(steps.last());
        assert(took + before.step(steps.last()).output.pending =~= before.output.pending + came);
        let read_and_waiting = start.consumed(earlier) + before.output.pending;
        assert(start.consumed(steps) + start.after(steps).output.pending =~= read_and_waiting
            + came);
        assert(start.output.pending + start.delivered(steps) =~= read_and_waiting + came);
    }
}

/// For a new supervisor: the bytes that readers received, followed by those
/// that still wait, are exactly the bytes that the channel took in, in order.
pub proof fn lemma_readers_receive_what_was_written(steps: Seq<Step>)
    ensures
        SupervisorModel::initial().consumed(steps) + SupervisorModel::initial().after(
            steps,
        ).output.pending == SupervisorModel::initial().delivered(steps),
{
    let start = SupervisorModel::initial();
    lemma_output_is_complete_and_in_order(start, steps);
    assert(start.output.pending + start.delivered(steps) =~= start.delivered(steps));
}

} // verus!
