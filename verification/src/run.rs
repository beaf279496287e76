//! The steps of one run of a job, as a state machine.
//!
//! A run goes through its stages in one fixed order. The caller performs the
//! action that the current stage asks for and reports how it went; the machine
//! decides what comes next. A failure at any step ends the run at once: there
//! is no way back and no retry.

use vstd::prelude::*;
use crate::plan::DispatchGrid;
use crate::plan::JobPlan;

verus! {

/// What can go wrong while the device works for the run.
#[derive(Clone, Copy, Debug, PartialEq, Eq, Structural)]
pub enum Failure {
    /// No accelerator matches the selection criteria.
    NoAdapter,
    /// The accelerator did not grant a device and a queue.
    DeviceRefused,
    /// The output buffer could not be mapped for reading.
    MapFailed,
}

/// Where a run stands.
#[derive(Clone, Copy, Debug, PartialEq, Eq, Structural)]
pub enum Stage {
    Uninitialized,
    DeviceReady,
    BuffersAllocated,
    PipelineBuilt,
    Dispatched,
    Submitted,
    Completed,
    Read,
    Aborted(Failure),
}

/// How the action that a stage asked for went.
#[derive(Clone, Copy, Debug, PartialEq, Eq, Structural)]
pub enum Event {
    Done,
    Failed(Failure),
}

/// What the caller is to do next.
#[derive(Clone, Copy, Debug, PartialEq, Eq, Structural)]
pub enum Action {
    /// Find an accelerator and get a device and a queue from it.
    AcquireDevice,
    /// Create the input buffer from the input's byte image, and an output
    /// buffer of `output_bytes` bytes.
    AllocateBuffers { output_bytes: u64 },
    /// Compile the kernel into a pipeline and bind the two buffers.
    BuildPipeline,
    /// Encode one compute pass that dispatches `grid`.
    EncodeDispatch { grid: DispatchGrid },
    /// Hand the encoded commands to the queue as one unit of work.
    Submit,
    /// Wait until the device has finished, and map the output buffer.
    AwaitMapping,
    /// Copy the mapped range out and release the mapping.
    ReadOutput,
    /// Nothing is left to do: the output has been read.
    Finish,
    /// Stop and report the failure.
    Abort(Failure),
}

/// Number of steps from the start of a run to the stage in which the output
/// has been read.
pub const STEPS: usize = 7;

/// A stage that no event leads out of.
pub open spec fn is_terminal(stage: Stage) -> bool {
    stage is Read || stage is Aborted
}

/// How far along a stage is. An aborted run ranks above all others.
pub open spec fn rank(stage: Stage) -> nat {
    match stage {
        Stage::Uninitialized => 0,
        Stage::DeviceReady => 1,
        Stage::BuffersAllocated => 2,
        Stage::PipelineBuilt => 3,
        Stage::Dispatched => 4,
        Stage::Submitted => 5,
        Stage::Completed => 6,
        Stage::Read => 7,
        Stage::Aborted(_) => 8,
    }
}

/// The stage that follows `stage` when its action went well.
pub open spec fn successor(stage: Stage) -> Stage {
    match stage {
        Stage::Uninitialized => Stage::DeviceReady,
        Stage::DeviceReady => Stage::BuffersAllocated,
        Stage::BuffersAllocated => Stage::PipelineBuilt,
        Stage::PipelineBuilt => Stage::Dispatched,
        Stage::Dispatched => Stage::Submitted,
        Stage::Submitted => Stage::Completed,
        Stage::Completed => Stage::Read,
        Stage::Read => Stage::Read,
        Stage::Aborted(failure) => Stage::Aborted(failure),
    }
}

/// The stage that an event leads to. A terminal stage stays as it is; else a
/// failure aborts the run, and success moves it one stage on.
pub open spec fn next_stage(stage: Stage, event: Event) -> Stage {
    if is_terminal(stage) {
        stage
    } else {
        match event {
            Event::Done => successor(stage),
            Event::Failed(failure) => Stage::Aborted(failure),
        }
    }
}

/// The stage reached from `stage` after the events in `events`, in order.
pub open spec fn run_from(stage: Stage, events: Seq<Event>) -> Stage
    decreases events.len(),
{
    if events.len() == 0 {
        stage
    } else {
        run_from(next_stage(stage, events[0]), events.drop_first())
    }
}

/// The action that a stage asks for, with what the plan says of it.
pub open spec fn action_for(plan: JobPlan, stage: Stage) -> Action {
    match stage {
        Stage::Uninitialized => Action::AcquireDevice,
        Stage::DeviceReady => Action::AllocateBuffers { output_bytes: plan.spec_output_bytes() },
        Stage::BuffersAllocated => Action::BuildPipeline,
        Stage::PipelineBuilt => Action::EncodeDispatch { grid: plan.spec_grid() },
        Stage::Dispatched => Action::Submit,
        Stage::Submitted => Action::AwaitMapping,
        Stage::Completed => Action::ReadOutput,
        Stage::Read => Action::Finish,
        Stage::Aborted(failure) => Action::Abort(failure),
    }
}

/// The text to report a failure with.
pub open spec fn diagnostic_text(failure: Failure) -> Seq<char> {
    match failure {
        Failure::NoAdapter => "No GPU Found for referenced preference"@,
        Failure::DeviceRefused => "Could not create adapter for GPU device"@,
        Failure::MapFailed => "failed to run compute on gpu!"@,
    }
}

/// No step goes back: an event moves a run that has not ended to a stage of
/// strictly higher rank.
pub proof fn lemma_step_advances(stage: Stage, event: Event)
    requires
        !is_terminal(stage),
    ensures
        rank(next_stage(stage, event)) > rank(stage),
{
}

/// A run that has ended stays where it is, whatever is reported to it.
pub proof fn lemma_terminal_stays(stage: Stage, events: Seq<Event>)
    requires
        is_terminal(stage),
    ensures
        run_from(stage, events) == stage,
    decreases events.len(),
{
    if events.len() > 0 {
        lemma_terminal_stays(stage, events.drop_first());
    }
}

/// A run cannot hang: once as many events have been reported as there are
/// steps left before the output is read, the run has ended.
pub proof fn lemma_run_ends(stage: Stage, events: Seq<Event>)
    requires
        rank(stage) + events.len() >= STEPS,
    ensures
        is_terminal(run_from(stage, events)),
    decreases events.len(),
{
    if is_terminal(stage) {
        lemma_terminal_stays(stage, events);
    } else {
        lemma_run_ends(next_stage(stage, events[0]), events.drop_first());
    }
}

/// While every action goes well the run moves on one stage per event.
pub proof fn lemma_success_moves_on(stage: Stage, events: Seq<Event>)
    requires
        rank(stage) + events.len() <= STEPS,
        forall|i: int| 0 <= i < events.len() ==> events[i] == Event::Done,
    ensures
        rank(run_from(stage, events)) == rank(stage) + events.len(),
        !(run_from(stage, events) is Aborted),
    decreases events.len(),
{
    if events.len() > 0 {
        let rest = events.drop_first();
        assert forall|i: int| 0 <= i < rest.len() implies rest[i] == Event::Done by {
            assert(rest[i] == events[i + 1]);
        }
        lemma_success_moves_on(next_stage(stage, events[0]), rest);
    }
}

/// The first failure that is reported before the run has ended aborts it with
/// that failure, whatever is reported afterwards.
pub proof fn lemma_first_failure_aborts(
    stage: Stage,
    events: Seq<Event>,
    at: int,
    failure: Failure,
)
    requires
        0 <= at < events.len(),
        rank(stage) + at < STEPS,
        forall|i: int| 0 <= i < at ==> events[i] == Event::Done,
        events[at] == Event::Failed(failure),
    ensures
        run_from(stage, events) == Stage::Aborted(failure),
    decreases events.len(),
{
    let rest = events.drop_first();
    if at == 0 {
        lemma_terminal_stays(Stage::Aborted(failure), rest);
    } else {
        assert forall|i: int| 0 <= i < at - 1 implies rest[i] == Event::Done by {
            assert(rest[i] == events[i + 1]);
        }
        assert(rest[at - 1] == events[at]);
        lemma_first_failure_aborts(next_stage(stage, events[0]), rest, at - 1, failure);
    }
}

/// A run from the start ends with the output read exactly when each of its
/// steps was reported as done.
pub proof fn lemma_read_iff_all_done(events: Seq<Event>)
    requires
        events.len() >= STEPS,
    ensures
        run_from(Stage::Uninitialized, events) == Stage::Read <==> forall|i: int|
            0 <= i < STEPS ==> events[i] == Event::Done,
{
    let first_failure = choose|k: int| 0 <= k < STEPS && events[k] != Event::Done;
    if forall|i: int| 0 <= i < STEPS ==> events[i] == Event::Done {
        let head = events.take(STEPS as int);
        let tail = events.skip(STEPS as int);
        lemma_success_moves_on(Stage::Uninitialized, head);
        lemma_run_splits(Stage::Uninitialized, head, tail);
        assert(head + tail == events);
        lemma_terminal_stays(Stage::Read, tail);
    } else {
        lemma_failure_before(events, first_failure);
    }
}

/// Running over two sequences of events in a row is running over the second
/// from where the first has led.
pub proof fn lemma_run_splits(stage: Stage, first: Seq<Event>, second: Seq<Event>)
    ensures
        run_from(stage, first + second) == run_from(run_from(stage, first), second),
    decreases first.len(),
{
    if first.len() == 0 {
        assert(first + second == second);
    } else {
        assert((first + second).drop_first() == first.drop_first() + second);
        lemma_run_splits(next_stage(stage, first[0]), first.drop_first(), second);
    }
}

/// If some step of a run from the start was not reported as done, the run is
/// aborted.
proof fn lemma_failure_before(events: Seq<Event>, k: int)
    requires
        0 <= k < STEPS,
        k < events.len(),
        events[k] != Event::Done,
    ensures
        run_from(Stage::Uninitialized, events) is Aborted,
    decreases k,
{
    if exists|j: int| 0 <= j < k && events[j] != Event::Done {
        let j = choose|j: int| 0 <= j < k && events[j] != Event::Done;
        lemma_failure_before(events, j);
    } else {
        match events[k] {
            Event::Done => {},
            Event::Failed(failure) => {
                lemma_first_failure_aborts(Stage::Uninitialized, events, k, failure);
            },
        }
    }
}

/// One run of a job: the plan it follows and the stage it has reached.
#[derive(Clone, Copy, Debug)]
pub struct Run {
    plan: JobPlan,
    stage: Stage,
}

impl Run {
    /// The plan that the run follows.
    pub closed spec fn spec_plan(&self) -> JobPlan {
        self.plan
    }

    /// The stage that the run has reached.
    pub closed spec fn spec_stage(&self) -> Stage {
        self.stage
    }

    /// A run of `plan` on which nothing has been done yet.
    pub fn new(plan: JobPlan) -> (run: Run)
        ensures
            run.spec_plan() == plan,
            run.spec_stage() == Stage::Uninitialized,
    {
        Run { plan, stage: Stage::Uninitialized }
    }

    /// The plan that the run follows.
    #[verifier::when_used_as_spec(spec_plan)]
    pub fn plan(&self) -> (plan: JobPlan)
        ensures
            plan == self.spec_plan(),
    {
        self.plan
    }

    /// The stage that the run has reached.
    #[verifier::when_used_as_spec(spec_stage)]
    pub fn stage(&self) -> (stage: Stage)
        ensures
            stage == self.spec_stage(),
    {
        self.stage
    }

    /// Whether the run has ended, with the output read or with a failure.
    pub fn is_finished(&self) -> (finished: bool)
        ensures
            finished == is_terminal(self.spec_stage()),
    {
        match self.stage {
            Stage::Read => true,
            Stage::Aborted(_) => true,
            _ => false,
        }
    }

    /// What the caller is to do in the current stage.
    pub fn next_action(&self) -> (action: Action)
        ensures
            action == action_for(self.spec_plan(), self.spec_stage()),
    {
        match self.stage {
            Stage::Uninitialized => Action::AcquireDevice,
            Stage::DeviceReady => Action::AllocateBuffers {
                output_bytes: self.plan.output_bytes(),
            },
            Stage::BuffersAllocated => Action::BuildPipeline,
            Stage::PipelineBuilt => Action::EncodeDispatch { grid: self.plan.grid() },
            Stage::Dispatched => Action::Submit,
            Stage::Submitted => Action::AwaitMapping,
            Stage::Completed => Action::ReadOutput,
            Stage::Read => Action::Finish,
            Stage::Aborted(failure) => Action::Abort(failure),
        }
    }

    /// Takes note of how the current stage's action went.
    pub fn advance(&mut self, event: Event)
        ensures
            final(self).spec_plan() == old(self).spec_plan(),
            final(self).spec_stage() == next_stage(old(self).spec_stage(), event),
    {
        let next = step(self.stage, event);
        self.stage = next;
    }
}

/// The stage that `event` leads to from `stage`.
pub fn step(stage: Stage, event: Event) -> (next: Stage)
    ensures
        next == next_stage(stage, event),
{
    match stage {
        Stage::Read => stage,
        Stage::Aborted(_) => stage,
        _ => match event {
            Event::Failed(failure) => Stage::Aborted(failure),
            Event::Done => match stage {
                Stage::Uninitialized => Stage::DeviceReady,
                Stage::DeviceReady => Stage::BuffersAllocated,
                Stage::BuffersAllocated => Stage::PipelineBuilt,
                Stage::PipelineBuilt => Stage::Dispatched,
                Stage::Dispatched => Stage::Submitted,
                Stage::Submitted => Stage::Completed,
                _ => Stage::Read,
            },
        },
    }
}

/// The text to report `failure` with.
pub fn diagnostic(failure: Failure) -> (text: &'static str)
    ensures
        text@ == diagnostic_text(failure),
{
    match failure {
        Failure::NoAdapter => "No GPU Found for referenced preference",
        Failure::DeviceRefused => "Could not create adapter for GPU device",
        Failure::MapFailed => "failed to run compute on gpu!",
    }
}

} // verus!
