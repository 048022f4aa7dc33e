//! Verified core of a document-to-vector-index upload pipeline.
//!
//! The crate holds the decisions of the pipeline and none of its input or
//! output: how a text is cut into chunks, when a failed embedding request is
//! tried again, in which order the vector store is cleared and written, and
//! which message each failure is reported with. A caller performs the remote
//! calls and feeds their outcomes back.

pub mod chunker;
pub mod embeddings;
pub mod pipeline;
pub mod settings;
pub mod storage;
pub mod text;
