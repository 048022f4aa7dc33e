//! The model of an upload: what the orchestrator decides, over plain values.
//!
//! An upload is a sequence of requests, each answered by an outcome. The
//! model says, for every state of an upload and every outcome, what the next
//! state and the next request are ([`Run::next`]), and from that what the
//! whole sequence of requests is when the services behave in a given way
//! ([`process`]).

use crate::chunker::{chunks_of, ChunkView, CHUNK_SIZE};
use crate::storage::{record_of, RecordView};
use crate::text::decimal;
use vstd::prelude::*;

verus! {

/// Where an upload stands.
#[derive(Debug, Clone, Copy)]
pub enum Phase {
    /// The store is being cleared.
    Clearing,
    /// The embeddings of all chunks are being requested.
    Embedding,
    /// A record is being written.
    Storing,
    /// The upload has ended, well or not.
    Finished,
}

/// A request of the model: what the caller is to do next.
pub enum Call<V> {
    /// Remove every record of the namespace.
    Clear,
    /// Obtain an embedding for each of these chunks, all at once.
    Embed(Seq<ChunkView>),
    /// Write this record.
    Store(RecordView<V>),
    /// Nothing more: the upload has ended with this result.
    Finish(Result<Seq<char>, Seq<char>>),
}

/// An outcome in the model: what came of a request.
pub enum Reply<V> {
    /// The store was cleared, or could not be.
    Cleared(Result<(), Seq<char>>),
    /// Every embedding request has ended; the outcomes are in chunk order, in
    /// whichever order the requests completed.
    Embedded(Seq<Result<V, Seq<char>>>),
    /// The record was written, or could not be.
    Stored(Result<(), Seq<char>>),
}

/// The summary of an upload of `count` chunks.
pub open spec fn summary(count: nat) -> Seq<char> {
    "Успешно обработано и загружено "@ + decimal(count) + " чанков"@
}

/// The report of a document whose text could not be extracted, from the
/// extractor's own description.
pub open spec fn extraction_report(why: Seq<char>) -> Seq<char> {
    "Ошибка извлечения текста из PDF: "@ + why
}

/// Every chunk carries its position in the sequence.
pub open spec fn in_order(chunks: Seq<ChunkView>) -> bool {
    forall|i: int| 0 <= i < chunks.len() ==> (#[trigger] chunks[i]).index == i
}

/// The model of an upload: its chunks, how far it has come, and the
/// embedding outcomes that have not been used yet.
pub struct Run<V> {
    /// The chunks of the text, in index order.
    pub chunks: Seq<ChunkView>,
    pub phase: Phase,
    /// The number of records handed out for writing so far.
    pub written: nat,
    /// The embedding outcomes of the chunks from `written` on, in chunk order.
    pub pending: Seq<Result<V, Seq<char>>>,
}

impl<V> Run<V> {
    /// What holds of every upload: chunks carry their position; records are
    /// handed out only while writing, one per chunk at most; and while
    /// writing, every chunk that has no record yet has its embedding outcome
    /// waiting.
    pub open spec fn wf(self) -> bool {
        &&& in_order(self.chunks)
        &&& self.written <= self.chunks.len()
        &&& match self.phase {
            Phase::Clearing | Phase::Embedding => self.written == 0 && self.pending.len() == 0,
            Phase::Storing => self.written >= 1 && self.pending.len() == self.chunks.len()
                - self.written,
            Phase::Finished => self.pending.len() == 0,
        }
    }

    /// The upload of `text` at its start: chunked, with the request to clear
    /// the store outstanding.
    pub open spec fn begin(text: Seq<char>) -> Run<V> {
        Run {
            chunks: chunks_of(text, CHUNK_SIZE as nat),
            phase: Phase::Clearing,
            written: 0,
            pending: Seq::empty(),
        }
    }

    /// The upload of a document whose text could not be extracted: over
    /// before it began.
    pub open spec fn rejected() -> Run<V> {
        Run { chunks: Seq::empty(), phase: Phase::Finished, written: 0, pending: Seq::empty() }
    }

    /// The upload after its end. Embedding outcomes that were not used are
    /// dropped.
    pub open spec fn finished(self) -> Run<V> {
        Run { phase: Phase::Finished, pending: Seq::empty(), ..self }
    }

    /// The move to the next chunk, once the store is clear and all earlier
    /// records are written. With no chunk left the upload ends with its
    /// summary. A chunk whose embedding failed ends the upload with that
    /// failure. Otherwise the chunk's record is to be written.
    pub open spec fn advance(self) -> (Run<V>, Call<V>) {
        if self.written >= self.chunks.len() {
            (self.finished(), Call::Finish(Ok(summary(self.chunks.len()))))
        } else {
            match self.pending.first() {
                Err(why) => (self.finished(), Call::Finish(Err(why))),
                Ok(vector) => (
                    Run {
                        phase: Phase::Storing,
                        written: self.written + 1,
                        pending: self.pending.drop_first(),
                        ..self
                    },
                    Call::Store(record_of(self.chunks[self.written as int], vector)),
                ),
            }
        }
    }

    /// One step: the upload after `reply`, and the next request. A reply that
    /// does not answer the outstanding request (another kind of outcome, or
    /// embedding outcomes that are not one per chunk) is ignored: the upload
    /// stays as it is and there is no new request.
    pub open spec fn next(self, reply: Reply<V>) -> (Run<V>, Option<Call<V>>) {
        match (self.phase, reply) {
            (Phase::Clearing, Reply::Cleared(Err(why))) => (
                self.finished(),
                Some(Call::Finish(Err(why))),
            ),
            (Phase::Clearing, Reply::Cleared(Ok(_))) => if self.chunks.len() == 0 {
                (self.finished(), Some(Call::Finish(Ok(summary(0)))))
            } else {
                (Run { phase: Phase::Embedding, ..self }, Some(Call::Embed(self.chunks)))
            },
            (Phase::Embedding, Reply::Embedded(outcomes)) => if outcomes.len()
                == self.chunks.len() {
                let (after, call) = (Run { pending: outcomes, ..self }).advance();
                (after, Some(call))
            } else {
                (self, None)
            },
            (Phase::Storing, Reply::Stored(Err(why))) => (
                self.finished(),
                Some(Call::Finish(Err(why))),
            ),
            (Phase::Storing, Reply::Stored(Ok(_))) => {
                let (after, call) = self.advance();
                (after, Some(call))
            },
            _ => (self, None),
        }
    }

    /// A bound on the number of steps that are left.
    pub open spec fn steps_left(self) -> nat {
        match self.phase {
            Phase::Clearing => self.chunks.len() + 3,
            Phase::Embedding => self.chunks.len() + 2,
            Phase::Storing => (self.chunks.len() - self.written + 1) as nat,
            Phase::Finished => 0,
        }
    }
}

/// How the remote services behave during one upload: the outcome of clearing
/// the store, and for each chunk the outcome of its embedding request (after
/// the retries of that request) and of writing its record.
pub struct Backends<V> {
    pub clear: Result<(), Seq<char>>,
    pub embeddings: Seq<Result<V, Seq<char>>>,
    pub writes: Seq<Result<(), Seq<char>>>,
}

impl<V> Backends<V> {
    /// The services answer for `count` chunks.
    pub open spec fn covers(self, count: nat) -> bool {
        self.embeddings.len() == count && self.writes.len() == count
    }

    /// What comes of `call`, made while the upload is in state `run`. The end
    /// of the upload is no request and has no outcome.
    pub open spec fn answer(self, run: Run<V>, call: Call<V>) -> Option<Reply<V>> {
        match call {
            Call::Clear => Some(Reply::Cleared(self.clear)),
            Call::Embed(_) => Some(Reply::Embedded(self.embeddings)),
            Call::Store(_) => Some(Reply::Stored(self.writes[run.written - 1])),
            Call::Finish(_) => None,
        }
    }
}

impl<V> Run<V> {
    /// The requests of an upload from state `self` on, where `call` is
    /// outstanding and every request is answered by `services`: `call` first,
    /// the end of the upload last.
    pub open spec fn history(self, call: Call<V>, services: Backends<V>) -> Seq<Call<V>>
        decreases self.steps_left(),
        when self.wf()
    {
        match services.answer(self, call) {
            None => seq![call],
            Some(reply) => match self.next(reply) {
                (after, Some(then)) => seq![call] + after.history(then, services),
                (_, None) => seq![call],
            },
        }
    }
}

/// The requests of the whole upload of `text`, in order, where every request
/// is answered by `services`.
pub open spec fn process<V>(text: Seq<char>, services: Backends<V>) -> Seq<Call<V>> {
    Run::<V>::begin(text).history(Call::Clear, services)
}

} // verus!
