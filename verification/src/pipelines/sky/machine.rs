//! The order in which the stages run, as a state machine: what to do next
//! after each thing that the GPU reports.

use vstd::prelude::*;
use crate::pipelines::sky::error::{BuildError, ResourceCreationError, Stage, StageError};

verus! {

/// How far the precomputation has come.
#[derive(Copy, Clone, Debug, PartialEq, Eq, Structural)]
pub enum RendererState {
    /// Nothing has been submitted.
    Uninitialized,
    /// The source image is being projected onto the base cubemap.
    Projecting,
    /// A stage that reads the base cubemap, or the lookup table, is running.
    Convolving(Stage),
    /// All four products exist.
    Ready,
    /// A stage failed; the stages after it were not run.
    Failed(BuildError),
}

/// What the GPU side reports.
#[derive(Copy, Clone, Debug, PartialEq, Eq, Structural)]
pub enum StageEvent {
    /// The build is asked to begin.
    Start,
    /// The running stage has been submitted and accepted.
    Completed,
    /// The running stage could not create a resource.
    Failed(ResourceCreationError),
}

/// What the GPU side is to do next.
#[derive(Copy, Clone, Debug, PartialEq, Eq, Structural)]
pub enum Action {
    /// Run the stage.
    Run(Stage),
    /// Hand the four products out.
    Finish,
    /// Release the products of the stages that completed, that many, and
    /// report the failure.
    Release(u32),
    /// Nothing: the event does not apply to the state.
    Nothing,
}

impl RendererState {
    /// A convolving state names a stage that follows the projection.
    pub open spec fn wf(self) -> bool {
        match self {
            RendererState::Convolving(stage) => stage != Stage::Projection,
            _ => true,
        }
    }

    /// The stage that is running, if one is.
    pub open spec fn spec_running(self) -> Option<Stage> {
        match self {
            RendererState::Projecting => Some(Stage::Projection),
            RendererState::Convolving(stage) => Some(stage),
            _ => None,
        }
    }

    /// Whether the state is one that no event leaves.
    pub open spec fn spec_is_terminal(self) -> bool {
        self is Ready || self is Failed
    }

    /// Progress of the state: a step never leads to a smaller number.
    pub open spec fn rank(self) -> nat {
        match self {
            RendererState::Uninitialized => 0,
            RendererState::Projecting => 1,
            RendererState::Convolving(stage) => 1 + stage.spec_ordinal(),
            RendererState::Ready => 5,
            RendererState::Failed(_) => 6,
        }
    }

    /// The state that runs `stage`.
    pub open spec fn spec_running_state(stage: Stage) -> RendererState {
        match stage {
            Stage::Projection => RendererState::Projecting,
            _ => RendererState::Convolving(stage),
        }
    }

    /// The state after `event`, and what to do: a start begins the
    /// projection; a completed stage starts the next one, the last one
    /// makes the renderer ready; a failed stage ends the build with the
    /// stage's name; every other event changes nothing.
    pub open spec fn spec_step(self, event: StageEvent) -> (RendererState, Action) {
        match (self.spec_running(), event) {
            (Some(stage), StageEvent::Completed) => match stage.spec_next() {
                Some(next) => (RendererState::Convolving(next), Action::Run(next)),
                None => (RendererState::Ready, Action::Finish),
            },
            (Some(stage), StageEvent::Failed(error)) => (
                RendererState::Failed(
                    BuildError { stage, error: StageError::ResourceCreation(error) },
                ),
                Action::Release(stage.spec_ordinal() as u32),
            ),
            (None, StageEvent::Start) if self is Uninitialized => (
                RendererState::Projecting,
                Action::Run(Stage::Projection),
            ),
            _ => (self, Action::Nothing),
        }
    }

    /// The state after all of `events`, in order.
    pub open spec fn spec_run(self, events: Seq<StageEvent>) -> RendererState
        decreases events.len(),
    {
        if events.len() == 0 {
            self
        } else {
            self.spec_step(events[0]).0.spec_run(events.drop_first())
        }
    }

    /// The stage that is running, if one is.
    pub fn running(self) -> (stage: Option<Stage>)
        ensures
            stage == self.spec_running(),
    {
        match self {
            RendererState::Projecting => Some(Stage::Projection),
            RendererState::Convolving(stage) => Some(stage),
            _ => None,
        }
    }

    /// Whether the state is one that no event leaves.
    pub fn is_terminal(self) -> (terminal: bool)
        ensures
            terminal == self.spec_is_terminal(),
    {
        match self {
            RendererState::Ready => true,
            RendererState::Failed(_) => true,
            _ => false,
        }
    }

    /// The state after `event`, and what to do.
    pub fn step(self, event: StageEvent) -> (next: (RendererState, Action))
        ensures
            next == self.spec_step(event),
    {
        match self.running() {
            Some(stage) => match event {
                StageEvent::Completed => match stage.next() {
                    Some(next) => (RendererState::Convolving(next), Action::Run(next)),
                    None => (RendererState::Ready, Action::Finish),
                },
                StageEvent::Failed(error) => (
                    RendererState::Failed(
                        BuildError { stage, error: StageError::ResourceCreation(error) },
                    ),
                    Action::Release(stage.ordinal()),
                ),
                StageEvent::Start => (self, Action::Nothing),
            },
            None => match (self, event) {
                (RendererState::Uninitialized, StageEvent::Start) => (
                    RendererState::Projecting,
                    Action::Run(Stage::Projection),
                ),
                _ => (self, Action::Nothing),
            },
        }
    }
}

/// No step leads back: the state after an event is well formed and has
/// come at least as far as the state before it.
pub proof fn lemma_step_never_goes_back(state: RendererState, event: StageEvent)
    requires
        state.wf(),
    ensures
        state.spec_step(event).0.wf(),
        state.spec_step(event).0.rank() >= state.rank(),
{
}

/// A ready or failed renderer stays as it is, whatever happens, and asks
/// for nothing.
pub proof fn lemma_terminal_states_absorb(state: RendererState, event: StageEvent)
    requires
        state.spec_is_terminal(),
    ensures
        state.spec_step(event) == (state, Action::Nothing),
{
}

/// A failure while a stage runs ends the build: the state names that
/// stage and the resource, the products of the stages before it are
/// released, and no stage is run.
pub proof fn lemma_failure_aborts(state: RendererState, error: ResourceCreationError)
    requires
        state.spec_running() is Some,
    ensures
        state.spec_step(StageEvent::Failed(error)).0 == RendererState::Failed(
            BuildError {
                stage: state.spec_running()->0,
                error: StageError::ResourceCreation(error),
            },
        ),
        state.spec_step(StageEvent::Failed(error)).1 == Action::Release(
            state.spec_running()->0.spec_ordinal() as u32,
        ),
{
}

/// A stage is run only as the consequence of the completion of the stage
/// before it, or of the start.
pub proof fn lemma_stages_run_in_order(state: RendererState, event: StageEvent, stage: Stage)
    requires
        state.wf(),
        state.spec_step(event).1 == Action::Run(stage),
    ensures
        state.spec_step(event).0 == RendererState::spec_running_state(stage),
        stage == Stage::Projection ==> state is Uninitialized && event is Start,
        stage != Stage::Projection ==> event is Completed && state.spec_running() is Some
            && state.spec_running()->0.spec_next() == Some(stage),
{
}

/// Over any sequence of events the renderer never goes back, and a
/// renderer that has become ready or has failed is in that same state at
/// the end.
pub proof fn lemma_run_never_goes_back(state: RendererState, events: Seq<StageEvent>)
    requires
        state.wf(),
    ensures
        state.spec_run(events).wf(),
        state.spec_run(events).rank() >= state.rank(),
        state.spec_is_terminal() ==> state.spec_run(events) == state,
    decreases events.len(),
{
    if events.len() > 0 {
        lemma_step_never_goes_back(state, events[0]);
        lemma_run_never_goes_back(state.spec_step(events[0]).0, events.drop_first());
    }
}

/// A start followed by four completions makes a fresh renderer ready.
pub proof fn lemma_run_to_ready()
    ensures
        RendererState::Uninitialized.spec_run(
            seq![
                StageEvent::Start,
                StageEvent::Completed,
                StageEvent::Completed,
                StageEvent::Completed,
                StageEvent::Completed,
            ],
        ) == RendererState::Ready,
{
    let events = seq![
        StageEvent::Start,
        StageEvent::Completed,
        StageEvent::Completed,
        StageEvent::Completed,
        StageEvent::Completed,
    ];
    let e1 = events.drop_first();
    let e2 = e1.drop_first();
    let e3 = e2.drop_first();
    let e4 = e3.drop_first();
    let e5 = e4.drop_first();
    assert(e5.len() == 0);
    let s1 = RendererState::Uninitialized.spec_step(events[0]).0;
    let s2 = s1.spec_step(e1[0]).0;
    let s3 = s2.spec_step(e2[0]).0;
    let s4 = s3.spec_step(e3[0]).0;
    let s5 = s4.spec_step(e4[0]).0;
    assert(s5 == RendererState::Ready);
    assert(s5.spec_run(e5) == s5);
    assert(s4.spec_run(e4) == s5);
    assert(s3.spec_run(e3) == s5);
    assert(s2.spec_run(e2) == s5);
    assert(s1.spec_run(e1) == s5);
}

} // verus!
