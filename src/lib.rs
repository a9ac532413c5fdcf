//! Sandboxed execution of untrusted WebAssembly components: loading, a
//! per-request run state machine with fuel accounting, classification of the
//! three possible outcomes and their mapping onto an HTTP-style response.
pub mod error;
pub mod outcome;
pub mod run;
pub mod engine;
pub mod host;
pub mod lemmas;
