use vstd::prelude::*;
use vstd::string::StringExecFns;

use crate::outcome::{CallReport, Execution, ExecutionView, classify, classify_spec, host_failure_spec, readings_ok};

verus! {

/// Fuel granted to every execution: a hard quota on guest CPU work.
pub const FUEL_CEILING: u64 = 500_000;

/// Text of a host failure while loading the component.
pub open spec fn load_failure_text(cause: Seq<char>) -> Seq<char> {
    "Failed to load component: "@ + cause
}

/// Text of a host failure while instantiating the component.
pub open spec fn instantiate_failure_text(cause: Seq<char>) -> Seq<char> {
    "Failed to instantiate component: "@ + cause
}

/// Where a run stands.
#[derive(PartialEq, Eq, Structural, Clone, Copy, Debug)]
pub enum RunPhase {
    /// The bytes have not been validated and compiled yet.
    Loading,
    /// The component is compiled; its imports are to be bound.
    Instantiating,
    /// The instance exists; the entry point is to be invoked.
    Invoking,
    /// A response has been produced; the run accepts nothing more.
    Finished,
}

/// What the host reports back to the run after doing the work it was asked for.
pub enum RunEvent {
    /// Validation and compilation of the bytes: success, or the loader's cause.
    Loaded(Result<(), String>),
    /// Instantiation against the linker: success, or its cause.
    Instantiated(Result<(), String>),
    /// The invocation of the entry point and the fuel readings around it.
    Called(CallReport),
}

/// What the host is to do next.
pub enum RunAction {
    Instantiate,
    Invoke,
    Respond(Execution),
    /// The event did not fit the phase; nothing to do.
    Ignore,
}

/// Mathematical model of a `RunAction`.
pub enum ActionView {
    Instantiate,
    Invoke,
    Respond(ExecutionView),
    Ignore,
}

impl View for RunAction {
    type V = ActionView;

    open spec fn view(&self) -> ActionView {
        match self {
            RunAction::Instantiate => ActionView::Instantiate,
            RunAction::Invoke => ActionView::Invoke,
            RunAction::Respond(e) => ActionView::Respond(e@),
            RunAction::Ignore => ActionView::Ignore,
        }
    }
}

/// Mathematical model of a `Run`.
pub struct RunView {
    pub ceiling: u64,
    pub phase: RunPhase,
}

/// An event is acceptable for a run with this ceiling: fuel readings, where
/// there are any, are consistent with it.
pub open spec fn event_ok(ceiling: u64, ev: RunEvent) -> bool {
    match ev {
        RunEvent::Called(report) => readings_ok(report, ceiling),
        _ => true,
    }
}

/// The transition of a run on an event: the next phase and the action.
pub open spec fn step_spec(r: RunView, ev: RunEvent) -> (RunView, ActionView) {
    let done = RunView { ceiling: r.ceiling, phase: RunPhase::Finished };
    match (r.phase, ev) {
        (RunPhase::Loading, RunEvent::Loaded(Ok(_))) =>
            (RunView { ceiling: r.ceiling, phase: RunPhase::Instantiating }, ActionView::Instantiate),
        (RunPhase::Loading, RunEvent::Loaded(Err(cause))) =>
            (done, ActionView::Respond(host_failure_spec(load_failure_text(cause@)))),
        (RunPhase::Instantiating, RunEvent::Instantiated(Ok(_))) =>
            (RunView { ceiling: r.ceiling, phase: RunPhase::Invoking }, ActionView::Invoke),
        (RunPhase::Instantiating, RunEvent::Instantiated(Err(cause))) =>
            (done, ActionView::Respond(host_failure_spec(instantiate_failure_text(cause@)))),
        (RunPhase::Invoking, RunEvent::Called(report)) =>
            (done, ActionView::Respond(classify_spec(report))),
        _ => (r, ActionView::Ignore),
    }
}

/// One execution of one request: single-use, with a fuel ceiling fixed when
/// it is created. The host performs each action it hands out and reports the
/// result back as the next event.
pub struct Run {
    ceiling: u64,
    phase: RunPhase,
}

impl View for Run {
    type V = RunView;

    closed spec fn view(&self) -> RunView {
        RunView { ceiling: self.ceiling, phase: self.phase }
    }
}

impl Run {
    /// A fresh run, waiting for the loader, with the given fuel ceiling.
    pub fn new(ceiling: u64) -> (r: Run)
        ensures
            r@ == (RunView { ceiling, phase: RunPhase::Loading }),
    {
        Run { ceiling, phase: RunPhase::Loading }
    }

    /// The fuel ceiling the execution context is to be given.
    pub fn ceiling(&self) -> (r: u64)
        ensures
            r == self@.ceiling,
    {
        self.ceiling
    }

    /// Where the run stands.
    pub fn phase(&self) -> (r: RunPhase)
        ensures
            r == self@.phase,
    {
        self.phase
    }

    /// Takes the host's report of the last action and decides the next one.
    pub fn step(&mut self, ev: RunEvent) -> (action: RunAction)
        requires
            event_ok(old(self)@.ceiling, ev),
        ensures
            (final(self)@, action@) == step_spec(old(self)@, ev),
    {
        match (self.phase, ev) {
            (RunPhase::Loading, RunEvent::Loaded(Ok(_))) => {
                self.phase = RunPhase::Instantiating;
                RunAction::Instantiate
            },
            (RunPhase::Loading, RunEvent::Loaded(Err(cause))) => {
                self.phase = RunPhase::Finished;
                let text = String::from_str("Failed to load component: ");
                RunAction::Respond(Execution::host_failure(text.concat(cause.as_str())))
            },
            (RunPhase::Instantiating, RunEvent::Instantiated(Ok(_))) => {
                self.phase = RunPhase::Invoking;
                RunAction::Invoke
            },
            (RunPhase::Instantiating, RunEvent::Instantiated(Err(cause))) => {
                self.phase = RunPhase::Finished;
                let text = String::from_str("Failed to instantiate component: ");
                RunAction::Respond(Execution::host_failure(text.concat(cause.as_str())))
            },
            (RunPhase::Invoking, RunEvent::Called(report)) => {
                self.phase = RunPhase::Finished;
                RunAction::Respond(classify(report))
            },
            _ => RunAction::Ignore,
        }
    }
}

} // verus!
