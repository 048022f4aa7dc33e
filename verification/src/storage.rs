//! The vector store as the pipeline sees it: the record that is written for a
//! chunk, the identifier it is written under, and the messages with which a
//! failure of the store is reported.
//!
//! A store is bound to one namespace. Writing a record inserts it or replaces
//! the record with the same identifier; clearing removes every record of the
//! namespace. Neither is tried again after a failure.

use crate::chunker::{Chunk, ChunkView};
use crate::text::{decimal, push_decimal};
use vstd::prelude::*;
use vstd::string::*;

verus! {

/// The metadata field under which the text of a chunk is kept beside its
/// vector.
pub const TEXT_FIELD: &'static str = "text";

/// What is written to the vector store for one chunk. The vector is whatever
/// the embedding service returned for the text: it is not looked at.
#[derive(Debug)]
pub struct StoredRecord<V> {
    pub id: String,
    pub vector: V,
    pub text: String,
}

/// What a [`StoredRecord`] stands for.
pub struct RecordView<V> {
    pub id: Seq<char>,
    pub vector: V,
    pub text: Seq<char>,
}

impl<V> View for StoredRecord<V> {
    type V = RecordView<V>;

    open spec fn view(&self) -> RecordView<V> {
        RecordView { id: self.id@, vector: self.vector, text: self.text@ }
    }
}

/// The identifier of the record of the chunk at `index`: `chunk_` and the
/// index in decimal.
pub open spec fn chunk_id(index: nat) -> Seq<char> {
    "chunk_"@ + decimal(index)
}

/// The record of a chunk whose text has the embedding `vector`.
pub open spec fn record_of<V>(chunk: ChunkView, vector: V) -> RecordView<V> {
    RecordView { id: chunk_id(chunk.index), vector, text: chunk.text }
}

/// The identifier of the record of the chunk at `index`.
pub fn record_id(index: usize) -> (id: String)
    ensures
        id@ == chunk_id(index as nat),
{
    let mut id = String::from_str("chunk_");
    push_decimal(&mut id, index);
    id
}

impl<V> StoredRecord<V> {
    /// The record of `chunk`, whose text has the embedding `vector`.
    pub fn for_chunk(chunk: &Chunk, vector: V) -> (record: StoredRecord<V>)
        ensures
            record@ == record_of(chunk@, vector),
    {
        StoredRecord { id: record_id(chunk.index), vector, text: chunk.text.clone() }
    }
}

/// A failure of the vector store, with the description that the store gave.
#[derive(Debug)]
pub enum StorageFailure {
    /// The client of the store could not be set up.
    Client(String),
    /// The index could not be reached.
    Connection(String),
    /// A record could not be written.
    Write(String),
    /// The namespace could not be cleared.
    Clear(String),
}

impl StorageFailure {
    /// The text with which the failure is reported.
    pub open spec fn report(self) -> Seq<char> {
        match self {
            StorageFailure::Client(why) => "Ошибка создания клиента Pinecone: "@ + why@,
            StorageFailure::Connection(why) => "Ошибка подключения к индексу Pinecone: "@ + why@,
            StorageFailure::Write(why) => "Ошибка сохранения вектора: "@ + why@,
            StorageFailure::Clear(why) => "Ошибка очистки векторов: "@ + why@,
        }
    }

    /// The text with which the failure is reported: what failed, then the
    /// store's own description.
    pub fn message(&self) -> (text: String)
        ensures
            text@ == self.report(),
    {
        match self {
            StorageFailure::Client(why) => String::from_str(
                "Ошибка создания клиента Pinecone: ",
            ).concat(why.as_str()),
            StorageFailure::Connection(why) => String::from_str(
                "Ошибка подключения к индексу Pinecone: ",
            ).concat(why.as_str()),
            StorageFailure::Write(why) => String::from_str("Ошибка сохранения вектора: ").concat(
                why.as_str(),
            ),
            StorageFailure::Clear(why) => String::from_str("Ошибка очистки векторов: ").concat(
                why.as_str(),
            ),
        }
    }
}

} // verus!
