use wasm_runner::engine::{load, AppState};
use wasm_runner::error::AppError;
use wasm_runner::host::HostComponent;
use wasm_runner::outcome::{classify, respond, CallReport, CallResult, Execution, Outcome};
use wasm_runner::run::{Run, RunAction, RunEvent, RunPhase, FUEL_CEILING};
use wasmtime::{Config, Engine};

fn engine() -> Engine {
    let mut config = Config::new();
    config.async_support(true);
    config.consume_fuel(true);
    config.wasm_component_model(true);
    Engine::new(&config).unwrap()
}

fn report(result: CallResult, fuel_before: u64, fuel_after: u64) -> CallReport {
    CallReport { result, fuel_before, fuel_after }
}

fn respond_action(action: RunAction) -> Execution {
    match action {
        RunAction::Respond(execution) => execution,
        _ => panic!("expected a response"),
    }
}

/// Drives a run whose component loads and instantiates, then is invoked.
fn full_run(result: CallResult, fuel_before: u64, fuel_after: u64) -> Execution {
    let mut run = Run::new(FUEL_CEILING);
    assert!(matches!(run.step(RunEvent::Loaded(Ok(()))), RunAction::Instantiate));
    assert!(matches!(run.step(RunEvent::Instantiated(Ok(()))), RunAction::Invoke));
    let execution = respond_action(run.step(RunEvent::Called(report(result, fuel_before, fuel_after))));
    assert_eq!(run.phase(), RunPhase::Finished);
    execution
}

#[test]
fn empty_payload_is_a_load_failure() {
    let engine = engine();
    let mut run = Run::new(FUEL_CEILING);
    let (component, action) = load(&mut run, &engine, &[]);
    assert!(component.is_none());
    assert_eq!(run.phase(), RunPhase::Finished);
    let execution = respond_action(action);
    assert_eq!(execution.fuel_consumed, 0);
    let error = execution.into_result().err().unwrap();
    assert!(error.message().starts_with("Failed to load component: "));
    let response = respond(Err(error));
    assert_eq!(response.status, 500);
    assert!(response.body.starts_with("Internal Server Error: Failed to load component: "));
}

#[test]
fn garbage_bytes_are_a_load_failure() {
    let engine = engine();
    let mut run = Run::new(FUEL_CEILING);
    let (component, action) = load(&mut run, &engine, &[1, 2, 3, 4, 5, 6, 7, 8]);
    assert!(component.is_none());
    assert!(matches!(action, RunAction::Respond(_)));
    // After a load failure nothing else is asked for.
    assert!(matches!(run.step(RunEvent::Instantiated(Ok(()))), RunAction::Ignore));
    assert_eq!(run.phase(), RunPhase::Finished);
}

#[test]
fn empty_component_loads() {
    let state = AppState::new(engine());
    let shared = state.clone();
    let mut run = Run::new(FUEL_CEILING);
    let bytes = [0x00, 0x61, 0x73, 0x6d, 0x0d, 0x00, 0x01, 0x00];
    let (component, action) = load(&mut run, shared.engine(), &bytes);
    assert!(component.is_some());
    assert!(matches!(action, RunAction::Instantiate));
    assert_eq!(run.phase(), RunPhase::Instantiating);
    assert_eq!(run.ceiling(), FUEL_CEILING);
}

#[test]
fn logged_hello_and_success_42() {
    let mut host = HostComponent::new();
    host.log(String::from("hello"));
    let execution = full_run(CallResult::Returned(Ok(String::from("42"))), 499_000, 498_000);
    let response = respond(execution.into_result());
    assert_eq!(response.status, 200);
    assert!(response.body.contains("42"));
    assert_eq!(host.len(), 1);
    assert_eq!(host.message(0), "hello");
}

#[test]
fn success_text_and_fuel() {
    let execution = full_run(CallResult::Returned(Ok(String::from("7"))), 400_000, 350_000);
    assert_eq!(execution.fuel_consumed, 50_000);
    assert!(matches!(execution.outcome, Outcome::GuestSuccess(ref p) if p == "7"));
    let result = execution.into_result();
    assert_eq!(result.ok().unwrap(), "Wasm component executed successfully. Output: 7");
}

#[test]
fn guest_error_is_success_class() {
    let execution = full_run(CallResult::Returned(Err(String::from("bad input"))), 10, 3);
    assert_eq!(execution.fuel_consumed, 7);
    let response = respond(execution.into_result());
    assert_eq!(response.status, 200);
    assert_eq!(response.body, "Guest application error: bad input");
}

#[test]
fn trap_is_host_failure() {
    let execution = full_run(CallResult::Trapped(String::from("all fuel consumed")), FUEL_CEILING, 0);
    assert_eq!(execution.fuel_consumed, FUEL_CEILING);
    let response = respond(execution.into_result());
    assert_eq!(response.status, 500);
    assert_eq!(
        response.body,
        "Internal Server Error: Host-level guest execution failed: all fuel consumed."
    );
}

#[test]
fn instantiation_failure() {
    let mut run = Run::new(FUEL_CEILING);
    run.step(RunEvent::Loaded(Ok(())));
    let execution = respond_action(run.step(RunEvent::Instantiated(Err(String::from("missing import")))));
    assert_eq!(execution.fuel_consumed, 0);
    let error = execution.into_result().err().unwrap();
    assert_eq!(error.message(), "Failed to instantiate component: missing import");
}

#[test]
fn out_of_order_events_are_ignored() {
    let mut run = Run::new(100);
    let called = RunEvent::Called(report(CallResult::Returned(Ok(String::new())), 100, 90));
    assert!(matches!(run.step(called), RunAction::Ignore));
    assert!(matches!(run.step(RunEvent::Instantiated(Ok(()))), RunAction::Ignore));
    assert_eq!(run.phase(), RunPhase::Loading);
    assert_eq!(run.ceiling(), 100);
}

#[test]
fn fuel_accounting_is_repeatable() {
    let a = classify(report(CallResult::Returned(Ok(String::from("x"))), 1_000, 400));
    let b = classify(report(CallResult::Trapped(String::from("y")), 1_000, 400));
    assert_eq!(a.fuel_consumed, 600);
    assert_eq!(a.fuel_consumed, b.fuel_consumed);
}

#[test]
fn interleaved_runs_are_independent() {
    let mut a = Run::new(FUEL_CEILING);
    let mut b = Run::new(FUEL_CEILING);
    a.step(RunEvent::Loaded(Ok(())));
    b.step(RunEvent::Loaded(Ok(())));
    a.step(RunEvent::Instantiated(Ok(())));
    b.step(RunEvent::Instantiated(Ok(())));
    let exhausted = respond_action(a.step(RunEvent::Called(report(
        CallResult::Trapped(String::from("fuel")),
        FUEL_CEILING,
        0,
    ))));
    let normal = respond_action(b.step(RunEvent::Called(report(
        CallResult::Returned(Ok(String::from("1"))),
        FUEL_CEILING,
        FUEL_CEILING - 25,
    ))));
    assert_eq!(exhausted.fuel_consumed, FUEL_CEILING);
    assert_eq!(normal.fuel_consumed, 25);
    assert!(matches!(exhausted.outcome, Outcome::HostError(_)));
    assert!(matches!(normal.outcome, Outcome::GuestSuccess(_)));
}

#[test]
fn app_error_response() {
    let error = AppError::from(String::from("boom"));
    assert_eq!(error.message(), "boom");
    let response = error.into_response();
    assert_eq!(response.status, 500);
    assert_eq!(response.body, "Internal Server Error: boom");
}

#[test]
fn host_failure_consumes_no_fuel() {
    let execution = Execution::host_failure(String::from("link"));
    assert_eq!(execution.fuel_consumed, 0);
    assert_eq!(execution.into_result().err().unwrap().message(), "link");
}
