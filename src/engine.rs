use vstd::prelude::*;
use wasmtime::component::Component;
use wasmtime::Engine;

use crate::outcome::host_failure_spec;
use crate::run::{ActionView, Run, RunAction, RunEvent, RunPhase, load_failure_text};

verus! {

#[verifier::external_type_specification]
#[verifier::external_body]
pub struct ExEngine(wasmtime::Engine);

#[verifier::external_type_specification]
#[verifier::external_body]
pub struct ExComponent(wasmtime::component::Component);

#[verifier::external_type_specification]
#[verifier::external_body]
pub struct ExError(wasmtime::Error);

/// Relies on `Clone` for wasmtime::Engine: another handle to the same
/// shared engine.
pub assume_specification[ <wasmtime::Engine as Clone>::clone ](e: &wasmtime::Engine) -> wasmtime::Engine;

/// Relies on wasmtime::component::Component::from_binary: validates the
/// bytes as a component and compiles them, without running guest code.
#[verifier::external_body]
fn compile_component(engine: &Engine, bytes: &[u8]) -> (r: Result<Component, wasmtime::Error>) {
    Component::from_binary(engine, bytes)
}

/// Relies on the `Display` impl of wasmtime::Error (anyhow's): the error's message.
#[verifier::external_body]
fn error_text(e: &wasmtime::Error) -> (r: String) {
    format!("{e}")
}

/// State shared by every request: the process-wide engine, immutable once built.
#[derive(Clone)]
pub struct AppState {
    engine: Engine,
}

impl AppState {
    pub fn new(engine: Engine) -> (r: AppState) {
        AppState { engine }
    }

    pub fn engine(&self) -> (r: &Engine) {
        &self.engine
    }
}

/// Loads the untrusted bytes for a run that waits for its loader: validation
/// and compilation only. A component comes back exactly when the run moves on
/// to instantiation; otherwise the run is finished with a load failure, so
/// instantiation is never asked for.
pub fn load(run: &mut Run, engine: &Engine, bytes: &[u8]) -> (r: (Option<Component>, RunAction))
    requires
        old(run)@.phase == RunPhase::Loading,
    ensures
        final(run)@.ceiling == old(run)@.ceiling,
        r.0 is Some ==> final(run)@.phase == RunPhase::Instantiating && r.1@ == ActionView::Instantiate,
        r.0 is None ==> final(run)@.phase == RunPhase::Finished && exists|cause: Seq<char>|
            r.1@ == ActionView::Respond(host_failure_spec(load_failure_text(cause))),
{
    match compile_component(engine, bytes) {
        Ok(component) => {
            let action = run.step(RunEvent::Loaded(Ok(())));
            (Some(component), action)
        },
        Err(e) => {
            let cause = error_text(&e);
            let ghost c = cause@;
            let action = run.step(RunEvent::Loaded(Err(cause)));
            assert(action@ == ActionView::Respond(host_failure_spec(load_failure_text(c))));
            (None, action)
        },
    }
}

} // verus!
