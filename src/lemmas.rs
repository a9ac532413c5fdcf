use vstd::prelude::*;

use crate::error::{STATUS_INTERNAL_SERVER_ERROR, STATUS_OK};
use crate::outcome::{
    CallReport, CallResult, ExecutionView, OutcomeView, body_spec, classify_spec,
    execution_failure_text, guest_error_text, host_failure_spec, readings_ok, result_spec,
    status_spec, success_text,
};
use crate::run::{ActionView, RunEvent, RunPhase, RunView, load_failure_text, step_spec};

verus! {

/// The status and body of the response for a classified run.
pub open spec fn response_spec(x: ExecutionView) -> (u16, Seq<char>) {
    (status_spec(result_spec(x.outcome)), body_spec(result_spec(x.outcome)))
}

/// Feeds a sequence of events to a run: its final state and the actions it
/// handed out, one per event.
pub open spec fn drive(r: RunView, evs: Seq<RunEvent>) -> (RunView, Seq<ActionView>)
    decreases evs.len(),
{
    if evs.len() == 0 {
        (r, Seq::empty())
    } else {
        let (r1, a) = step_spec(r, evs[0]);
        let (r2, rest) = drive(r1, evs.drop_first());
        (r2, seq![a] + rest)
    }
}

/// The events that a schedule of two interleaved runs delivers to one side.
pub open spec fn events_for(sched: Seq<(bool, RunEvent)>, side: bool) -> Seq<RunEvent>
    decreases sched.len(),
{
    if sched.len() == 0 {
        Seq::empty()
    } else {
        let rest = events_for(sched.drop_first(), side);
        if sched[0].0 == side {
            seq![sched[0].1] + rest
        } else {
            rest
        }
    }
}

/// Two runs driven side by side: each scheduled event (tagged `true` for the
/// first run, `false` for the second) goes to its own run.
pub open spec fn drive_pair(a: RunView, b: RunView, sched: Seq<(bool, RunEvent)>) -> (
    RunView,
    RunView,
    Seq<ActionView>,
    Seq<ActionView>,
)
    decreases sched.len(),
{
    if sched.len() == 0 {
        (a, b, Seq::empty(), Seq::empty())
    } else if sched[0].0 {
        let (a1, act) = step_spec(a, sched[0].1);
        let (a2, b2, xs, ys) = drive_pair(a1, b, sched.drop_first());
        (a2, b2, seq![act] + xs, ys)
    } else {
        let (b1, act) = step_spec(b, sched[0].1);
        let (a2, b2, xs, ys) = drive_pair(a, b1, sched.drop_first());
        (a2, b2, xs, seq![act] + ys)
    }
}

/// The events of a run whose component loads, instantiates and is invoked.
pub open spec fn full_run(report: CallReport) -> Seq<RunEvent> {
    seq![RunEvent::Loaded(Ok(())), RunEvent::Instantiated(Ok(())), RunEvent::Called(report)]
}

proof fn lemma_drive_full_run(c: u64, report: CallReport)
    ensures
        drive(RunView { ceiling: c, phase: RunPhase::Loading }, full_run(report))
            == (RunView { ceiling: c, phase: RunPhase::Finished }, seq![
            ActionView::Instantiate,
            ActionView::Invoke,
            ActionView::Respond(classify_spec(report)),
        ]),
{
    let evs = full_run(report);
    let r0 = RunView { ceiling: c, phase: RunPhase::Loading };
    let r1 = RunView { ceiling: c, phase: RunPhase::Instantiating };
    let r2 = RunView { ceiling: c, phase: RunPhase::Invoking };
    let r3 = RunView { ceiling: c, phase: RunPhase::Finished };
    let e1 = evs.drop_first();
    let e2 = e1.drop_first();
    let e3 = e2.drop_first();
    assert(e3.len() == 0);
    assert(drive(r3, e3) == (r3, Seq::<ActionView>::empty()));
    assert(drive(r2, e2).1 =~= seq![ActionView::Respond(classify_spec(report))]);
    assert(drive(r1, e1).1 =~= seq![ActionView::Invoke, ActionView::Respond(classify_spec(report))]);
    assert(drive(r0, evs).1 =~= seq![
        ActionView::Instantiate,
        ActionView::Invoke,
        ActionView::Respond(classify_spec(report)),
    ]);
}

/// A component that loads, instantiates and whose entry point returns
/// success with payload `p` gets a success-class response whose body is the
/// success text of exactly `p`.
pub proof fn lemma_success_response(c: u64, report: CallReport, p: String)
    requires
        readings_ok(report, c),
        report.result == CallResult::Returned(Ok(p)),
    ensures
        drive(RunView { ceiling: c, phase: RunPhase::Loading }, full_run(report)).1[2]
            == ActionView::Respond(classify_spec(report)),
        response_spec(classify_spec(report)) == (STATUS_OK, success_text(p@)),
{
    lemma_drive_full_run(c, report);
}

/// A component whose entry point returns the guest-level failure `e` gets a
/// success-class response whose body is the guest error text of exactly `e`.
pub proof fn lemma_guest_error_response(c: u64, report: CallReport, e: String)
    requires
        readings_ok(report, c),
        report.result == CallResult::Returned(Err(e)),
    ensures
        drive(RunView { ceiling: c, phase: RunPhase::Loading }, full_run(report)).1[2]
            == ActionView::Respond(classify_spec(report)),
        response_spec(classify_spec(report)) == (STATUS_OK, guest_error_text(e@)),
{
    lemma_drive_full_run(c, report);
}

proof fn lemma_finished_stays(r: RunView, evs: Seq<RunEvent>)
    requires
        r.phase == RunPhase::Finished,
    ensures
        drive(r, evs).0 == r,
        drive(r, evs).1.len() == evs.len(),
        forall|i: int| 0 <= i < evs.len() ==> drive(r, evs).1[i] == ActionView::Ignore,
    decreases evs.len(),
{
    if evs.len() > 0 {
        lemma_finished_stays(r, evs.drop_first());
    }
}

/// Once loading has failed, the run answers with a failure-class response
/// naming the load failure, and whatever events follow, it never asks for
/// instantiation (nor for anything else).
pub proof fn lemma_load_failure_final(c: u64, cause: String, rest: Seq<RunEvent>)
    ensures
        ({
            let evs = seq![RunEvent::Loaded(Err(cause))] + rest;
            let (r, acts) = drive(RunView { ceiling: c, phase: RunPhase::Loading }, evs);
            &&& r.phase == RunPhase::Finished
            &&& acts[0] == ActionView::Respond(host_failure_spec(load_failure_text(cause@)))
            &&& response_spec(host_failure_spec(load_failure_text(cause@)))
                == (STATUS_INTERNAL_SERVER_ERROR, crate::error::internal_error_body(load_failure_text(cause@)))
            &&& forall|i: int| 0 <= i < acts.len() ==> acts[i] != ActionView::Instantiate
        }),
{
    let evs = seq![RunEvent::Loaded(Err(cause))] + rest;
    assert(evs.drop_first() =~= rest);
    let done = RunView { ceiling: c, phase: RunPhase::Finished };
    lemma_finished_stays(done, rest);
    let acts = drive(RunView { ceiling: c, phase: RunPhase::Loading }, evs).1;
    assert forall|i: int| 0 <= i < acts.len() implies acts[i] != ActionView::Instantiate by {
        if i > 0 {
            assert(acts[i] == drive(done, rest).1[i - 1]);
        }
    }
}

/// The fuel a run accounts for is the drop between the two readings around
/// the invocation, whatever the guest returned: equal readings give equal
/// accounting.
pub proof fn lemma_fuel_deterministic(r1: CallReport, r2: CallReport)
    requires
        r1.fuel_after <= r1.fuel_before,
        r1.fuel_before == r2.fuel_before,
        r1.fuel_after == r2.fuel_after,
    ensures
        classify_spec(r1).fuel_consumed == r1.fuel_before - r1.fuel_after,
        classify_spec(r1).fuel_consumed == classify_spec(r2).fuel_consumed,
{
}

/// A guest whose invocation traps (fuel exhaustion included) under ceiling
/// `c` ends in a failure-class response, having been charged at most `c`.
pub proof fn lemma_trap_is_host_failure(c: u64, report: CallReport, cause: String)
    requires
        readings_ok(report, c),
        report.result == CallResult::Trapped(cause),
    ensures
        drive(RunView { ceiling: c, phase: RunPhase::Loading }, full_run(report)).1[2]
            == ActionView::Respond(classify_spec(report)),
        classify_spec(report).outcome == OutcomeView::HostError(execution_failure_text(cause@)),
        response_spec(classify_spec(report)).0 == STATUS_INTERNAL_SERVER_ERROR,
        classify_spec(report).fuel_consumed <= c,
{
    lemma_drive_full_run(c, report);
}

/// Two runs driven side by side never affect each other: each ends exactly
/// as it would have alone on its own events, with the same actions.
pub proof fn lemma_runs_independent(a: RunView, b: RunView, sched: Seq<(bool, RunEvent)>)
    ensures
        drive_pair(a, b, sched).0 == drive(a, events_for(sched, true)).0,
        drive_pair(a, b, sched).2 == drive(a, events_for(sched, true)).1,
        drive_pair(a, b, sched).1 == drive(b, events_for(sched, false)).0,
        drive_pair(a, b, sched).3 == drive(b, events_for(sched, false)).1,
    decreases sched.len(),
{
    if sched.len() > 0 {
        let rest = sched.drop_first();
        let ev = sched[0].1;
        if sched[0].0 {
            let (a1, _) = step_spec(a, ev);
            lemma_runs_independent(a1, b, rest);
            assert((seq![ev] + events_for(rest, true)).drop_first() =~= events_for(rest, true));
        } else {
            let (b1, _) = step_spec(b, ev);
            lemma_runs_independent(a, b1, rest);
            assert((seq![ev] + events_for(rest, false)).drop_first() =~= events_for(rest, false));
        }
    }
}

} // verus!
