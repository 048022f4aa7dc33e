//! The embedding client: one text in, one vector out, with a fixed number of
//! attempts and a fixed pause between them.
//!
//! The client performs no remote call and does not sleep. It is a state
//! machine: it names the next move ([`EmbeddingAction`]), the caller makes the
//! move and hands back what came of it ([`EmbeddingEvent`]). The policy is
//! stated once, over plain values, in the model ([`model::Retry`]); the
//! machine ([`EmbeddingCall`]) follows the model step by step, and the laws of
//! the model are proved in [`laws`]. Calls share nothing: each has a machine
//! of its own.

pub mod laws;
pub mod machine;
pub mod model;

pub use machine::{exhausted_failure, EmbeddingAction, EmbeddingCall, EmbeddingEvent};
pub use model::{Stage, EMBEDDING_MODEL, MAX_ATTEMPTS, RETRY_DELAY_SECS};
