use vstd::prelude::*;
use vstd::string::StringExecFns;

use crate::error::{AppError, Response, STATUS_OK, STATUS_INTERNAL_SERVER_ERROR, internal_error_body};

verus! {

/// Text of a host failure raised while the entry point was running.
pub open spec fn execution_failure_text(cause: Seq<char>) -> Seq<char> {
    "Host-level guest execution failed: "@ + cause + "."@
}

/// Text of the response for a guest that returned success.
pub open spec fn success_text(payload: Seq<char>) -> Seq<char> {
    "Wasm component executed successfully. Output: "@ + payload
}

/// Text of the response for a guest that reported its own failure.
pub open spec fn guest_error_text(payload: Seq<char>) -> Seq<char> {
    "Guest application error: "@ + payload
}

/// What came back from invoking the entry point: either the guest's own
/// success-or-failure union (with the textual rendering of its payload), or a
/// trap / infrastructure failure (fuel exhaustion included) with its cause.
pub enum CallResult {
    Returned(Result<String, String>),
    Trapped(String),
}

/// One invocation of the entry point together with the fuel remaining
/// immediately before and immediately after it.
pub struct CallReport {
    pub result: CallResult,
    pub fuel_before: u64,
    pub fuel_after: u64,
}

/// The three-way classification of a run.
pub enum Outcome {
    HostError(AppError),
    GuestError(String),
    GuestSuccess(String),
}

/// Mathematical model of an `Outcome`: the same tag over the texts.
pub enum OutcomeView {
    HostError(Seq<char>),
    GuestError(Seq<char>),
    GuestSuccess(Seq<char>),
}

/// A classified run and the fuel its invocation consumed.
pub struct Execution {
    pub outcome: Outcome,
    pub fuel_consumed: u64,
}

/// Mathematical model of an `Execution`.
pub struct ExecutionView {
    pub outcome: OutcomeView,
    pub fuel_consumed: nat,
}

impl View for Outcome {
    type V = OutcomeView;

    open spec fn view(&self) -> OutcomeView {
        match self {
            Outcome::HostError(e) => OutcomeView::HostError(e@),
            Outcome::GuestError(p) => OutcomeView::GuestError(p@),
            Outcome::GuestSuccess(p) => OutcomeView::GuestSuccess(p@),
        }
    }
}

impl View for Execution {
    type V = ExecutionView;

    open spec fn view(&self) -> ExecutionView {
        ExecutionView { outcome: self.outcome@, fuel_consumed: self.fuel_consumed as nat }
    }
}

/// Fuel readings are consistent: nothing is gained during the call and the
/// reading before the call does not exceed the ceiling it started from.
pub open spec fn readings_ok(report: CallReport, ceiling: u64) -> bool {
    report.fuel_after <= report.fuel_before <= ceiling
}

/// The classification of an invocation.
pub open spec fn classify_spec(report: CallReport) -> ExecutionView {
    let outcome = match report.result {
        CallResult::Returned(Ok(p)) => OutcomeView::GuestSuccess(p@),
        CallResult::Returned(Err(e)) => OutcomeView::GuestError(e@),
        CallResult::Trapped(cause) => OutcomeView::HostError(execution_failure_text(cause@)),
    };
    ExecutionView { outcome, fuel_consumed: (report.fuel_before - report.fuel_after) as nat }
}

/// A host failure outside the invocation, which consumes no fuel.
pub open spec fn host_failure_spec(message: Seq<char>) -> ExecutionView {
    ExecutionView { outcome: OutcomeView::HostError(message), fuel_consumed: 0 }
}

/// The value handed on for a run: text for both guest outcomes, the host
/// error's message otherwise.
pub open spec fn result_spec(o: OutcomeView) -> Result<Seq<char>, Seq<char>> {
    match o {
        OutcomeView::HostError(m) => Err(m),
        OutcomeView::GuestError(p) => Ok(guest_error_text(p)),
        OutcomeView::GuestSuccess(p) => Ok(success_text(p)),
    }
}

/// The status of the response for a run's result.
pub open spec fn status_spec(r: Result<Seq<char>, Seq<char>>) -> u16 {
    match r {
        Ok(_) => STATUS_OK,
        Err(_) => STATUS_INTERNAL_SERVER_ERROR,
    }
}

/// The body of the response for a run's result.
pub open spec fn body_spec(r: Result<Seq<char>, Seq<char>>) -> Seq<char> {
    match r {
        Ok(text) => text,
        Err(m) => internal_error_body(m),
    }
}

/// Classifies an invocation: a trap or infrastructure failure is a host
/// error; otherwise the union tag the guest returned decides between guest
/// error and guest success. The fuel consumed is the drop in remaining fuel.
pub fn classify(report: CallReport) -> (r: Execution)
    requires
        report.fuel_after <= report.fuel_before,
    ensures
        r@ == classify_spec(report),
{
    let fuel_consumed = report.fuel_before - report.fuel_after;
    let outcome = match report.result {
        CallResult::Returned(Ok(payload)) => Outcome::GuestSuccess(payload),
        CallResult::Returned(Err(payload)) => Outcome::GuestError(payload),
        CallResult::Trapped(cause) => {
            let text = String::from_str("Host-level guest execution failed: ");
            let text = text.concat(cause.as_str());
            let text = text.concat(".");
            Outcome::HostError(AppError::from(text))
        },
    };
    Execution { outcome, fuel_consumed }
}

impl Execution {
    /// A host failure that happened before the entry point ran.
    pub fn host_failure(message: String) -> (r: Execution)
        ensures
            r@ == host_failure_spec(message@),
    {
        Execution { outcome: Outcome::HostError(AppError::from(message)), fuel_consumed: 0 }
    }

    /// The run's result: descriptive text for both guest outcomes, the host
    /// error otherwise.
    pub fn into_result(self) -> (r: Result<String, AppError>)
        ensures
            result_view(r) == result_spec(self.outcome@),
    {
        match self.outcome {
            Outcome::HostError(e) => Err(e),
            Outcome::GuestError(payload) => {
                let text = String::from_str("Guest application error: ");
                Ok(text.concat(payload.as_str()))
            },
            Outcome::GuestSuccess(payload) => {
                let text = String::from_str("Wasm component executed successfully. Output: ");
                Ok(text.concat(payload.as_str()))
            },
        }
    }
}

/// The model of a run's result.
pub open spec fn result_view(r: Result<String, AppError>) -> Result<Seq<char>, Seq<char>> {
    match r {
        Ok(text) => Ok(text@),
        Err(e) => Err(e@),
    }
}

/// Maps a run's result onto the external response: success-class with the
/// text for a guest outcome, failure-class for a host error.
pub fn respond(result: Result<String, AppError>) -> (r: Response)
    ensures
        r.status == status_spec(result_view(result)),
        r.body@ == body_spec(result_view(result)),
{
    match result {
        Ok(text) => Response { status: STATUS_OK, body: text },
        Err(e) => e.into_response(),
    }
}

} // verus!
