//! The orchestrator of one upload: chunk the text, clear the store, embed
//! every chunk, write the records in chunk order, report how many were
//! written.
//!
//! The orchestrator performs no remote call itself. It is a state machine: it
//! names the next request ([`Action`]), the caller carries the request out and
//! hands the outcome back ([`Event`]). All that the orchestrator decides is
//! stated once, over plain values, in the model ([`model::Run`]); the machine
//! ([`Pipeline`]) follows the model step by step, and the laws of the model
//! are proved in [`laws`].

pub mod laws;
pub mod machine;
pub mod model;

pub use machine::{extraction_failure, summary_text, Action, Event, Pipeline};
pub use model::Phase;
