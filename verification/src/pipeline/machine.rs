//! The orchestrator as a state machine that a caller drives.

use crate::chunker::{chunk_views, split, Chunk, CHUNK_SIZE};
use crate::pipeline::laws::lemma_step;
use crate::pipeline::model::{
    extraction_report, in_order, summary, Call, Phase, Reply, Run,
};
use crate::storage::StoredRecord;
use crate::text::push_decimal;
use vstd::prelude::*;
use vstd::string::*;

verus! {

/// A request of the machine: what the caller is to do next.
#[derive(Debug)]
pub enum Action<V> {
    /// Remove every record of the namespace.
    Clear,
    /// Obtain an embedding for each of these chunks. The requests are
    /// independent and may run all at once.
    Embed(Vec<Chunk>),
    /// Write this record, and wait until it is written.
    Store(StoredRecord<V>),
    /// Nothing more: the upload has ended with this result, the summary or the
    /// report of the failure.
    Finish(Result<String, String>),
}

/// What came of a request.
#[derive(Debug)]
pub enum Event<V> {
    /// The store was cleared, or could not be.
    Cleared(Result<(), String>),
    /// Every embedding request has ended. The outcomes are in chunk order:
    /// the one at position `i` belongs to chunk `i`, whichever request
    /// completed first.
    Embedded(Vec<Result<V, String>>),
    /// The record was written, or could not be.
    Stored(Result<(), String>),
}

/// An outcome with the description of its failure as plain text.
pub open spec fn outcome_view<T>(outcome: Result<T, String>) -> Result<T, Seq<char>> {
    match outcome {
        Ok(value) => Ok(value),
        Err(why) => Err(why@),
    }
}

/// The result of an upload as plain text.
pub open spec fn result_view(result: Result<String, String>) -> Result<Seq<char>, Seq<char>> {
    match result {
        Ok(text) => Ok(text@),
        Err(why) => Err(why@),
    }
}

/// The model's outcomes for the outcomes of the embedding requests.
pub open spec fn outcome_views<V>(outcomes: Seq<Result<V, String>>) -> Seq<
    Result<V, Seq<char>>,
> {
    Seq::new(outcomes.len(), |i: int| outcome_view(outcomes[i]))
}

impl<V> View for Action<V> {
    type V = Call<V>;

    open spec fn view(&self) -> Call<V> {
        match self {
            Action::Clear => Call::Clear,
            Action::Embed(chunks) => Call::Embed(chunk_views(chunks@)),
            Action::Store(record) => Call::Store(record@),
            Action::Finish(result) => Call::Finish(result_view(*result)),
        }
    }
}

impl<V> View for Event<V> {
    type V = Reply<V>;

    open spec fn view(&self) -> Reply<V> {
        match self {
            Event::Cleared(outcome) => Reply::Cleared(outcome_view(*outcome)),
            Event::Embedded(outcomes) => Reply::Embedded(outcome_views(outcomes@)),
            Event::Stored(outcome) => Reply::Stored(outcome_view(*outcome)),
        }
    }
}

/// The model's request for the machine's, where there is one.
pub open spec fn request_view<V>(action: Option<Action<V>>) -> Option<Call<V>> {
    match action {
        Some(action) => Some(action@),
        None => None,
    }
}

/// The summary of an upload of `count` chunks.
pub fn summary_text(count: usize) -> (text: String)
    ensures
        text@ == summary(count as nat),
{
    let mut text = String::from_str("Успешно обработано и загружено ");
    push_decimal(&mut text, count);
    text.append(" чанков");
    text
}

/// The report of a document whose text could not be extracted.
pub fn extraction_failure(why: &str) -> (text: String)
    ensures
        text@ == extraction_report(why@),
{
    String::from_str("Ошибка извлечения текста из PDF: ").concat(why)
}

/// The items of `items`, last first.
fn reversed<T>(items: Vec<T>) -> (turned: Vec<T>)
    ensures
        turned.len() == items.len(),
        forall|i: int| 0 <= i < items.len() ==> turned[i] == items[items.len() - 1 - i],
{
    let ghost all = items@;
    let mut left = items;
    let mut turned: Vec<T> = Vec::new();
    while left.len() > 0
        invariant
            left.len() + turned.len() == all.len(),
            left@ == all.take(left.len() as int),
            forall|i: int| 0 <= i < turned.len() ==> turned[i] == all[all.len() - 1 - i],
        decreases left.len(),
    {
        let item = left.pop().unwrap();
        turned.push(item);
    }
    turned
}

/// A copy of every chunk, in order.
fn copy_chunks(chunks: &Vec<Chunk>) -> (copies: Vec<Chunk>)
    ensures
        chunk_views(copies@) == chunk_views(chunks@),
{
    let mut copies: Vec<Chunk> = Vec::new();
    let mut at: usize = 0;
    while at < chunks.len()
        invariant
            at <= chunks.len(),
            copies.len() == at,
            forall|i: int| 0 <= i < at ==> copies[i]@ == chunks[i]@,
        decreases chunks.len() - at,
    {
        copies.push(chunks[at].clone());
        at += 1;
    }
    assert(chunk_views(copies@) =~= chunk_views(chunks@));
    copies
}

/// The orchestrator of one upload.
///
/// [`Pipeline::start`] chunks the text and names the first request. The
/// caller carries each request out and hands its outcome to
/// [`Pipeline::step`], which names the next one, until the request is
/// [`Action::Finish`].
pub struct Pipeline<V> {
    chunks: Vec<Chunk>,
    phase: Phase,
    written: usize,
    /// The embedding outcomes of the chunks that have no record yet, the
    /// outcome of the next chunk last.
    waiting: Vec<Result<V, String>>,
}

impl<V> View for Pipeline<V> {
    type V = Run<V>;

    closed spec fn view(&self) -> Run<V> {
        Run {
            chunks: chunk_views(self.chunks@),
            phase: self.phase,
            written: self.written as nat,
            pending: Seq::new(
                self.waiting.len() as nat,
                |i: int| outcome_view(self.waiting[self.waiting.len() - 1 - i]),
            ),
        }
    }
}

impl<V> Pipeline<V> {
    #[verifier::type_invariant]
    closed spec fn valid(self) -> bool {
        self@.wf()
    }

    /// The upload of `text`: the text is cut into chunks of [`CHUNK_SIZE`]
    /// characters, and the first request is to clear the store.
    pub fn start(text: &str) -> (started: (Pipeline<V>, Action<V>))
        ensures
            started.0@ == Run::<V>::begin(text@),
            started.0@.wf(),
            started.1@ == Call::<V>::Clear,
    {
        let chunks = split(text, CHUNK_SIZE);
        let pipeline = Pipeline { chunks, phase: Phase::Clearing, written: 0, waiting: Vec::new() };
        assert(pipeline@.pending =~= Seq::empty());
        (pipeline, Action::Clear)
    }

    /// The upload of a document, from what came of extracting its text. With
    /// a text it starts as [`Pipeline::start`] does. Without one it is over at
    /// once: the only request is to finish with the report of the failure, and
    /// the store is left as it is.
    pub fn start_extracted(extraction: Result<String, String>) -> (started: (
        Pipeline<V>,
        Action<V>,
    ))
        ensures
            started.0@.wf(),
            match extraction {
                Ok(text) => started.0@ == Run::<V>::begin(text@) && started.1@ == Call::<V>::Clear,
                Err(why) => started.0@ == Run::<V>::rejected() && started.1@ == Call::<V>::Finish(
                    Err(extraction_report(why@)),
                ),
            },
    {
        match extraction {
            Ok(text) => Pipeline::start(text.as_str()),
            Err(why) => {
                let pipeline = Pipeline {
                    chunks: Vec::new(),
                    phase: Phase::Finished,
                    written: 0,
                    waiting: Vec::new(),
                };
                assert(pipeline@.chunks =~= Seq::empty());
                assert(pipeline@.pending =~= Seq::empty());
                (pipeline, Action::Finish(Err(extraction_failure(why.as_str()))))
            },
        }
    }

    /// The upload after its end.
    fn finish(chunks: Vec<Chunk>, written: usize) -> (ended: Pipeline<V>)
        requires
            written <= chunks.len(),
            in_order(chunk_views(chunks@)),
        ensures
            ended@ == (Run::<V> {
                chunks: chunk_views(chunks@),
                phase: Phase::Finished,
                written: written as nat,
                pending: Seq::empty(),
            }),
    {
        let ended = Pipeline { chunks, phase: Phase::Finished, written, waiting: Vec::new() };
        assert(ended@.pending =~= Seq::empty());
        ended
    }

    /// The move to the next chunk: see [`Run::advance`].
    fn advance(chunks: Vec<Chunk>, written: usize, waiting: Vec<Result<V, String>>) -> (moved: (
        Pipeline<V>,
        Action<V>,
    ))
        requires
            written <= chunks.len(),
            waiting.len() == chunks.len() - written,
            in_order(chunk_views(chunks@)),
        ensures
            (moved.0@, moved.1@) == (Run::<V> {
                chunks: chunk_views(chunks@),
                phase: Phase::Storing,
                written: written as nat,
                pending: Seq::new(
                    waiting.len() as nat,
                    |i: int| outcome_view(waiting[waiting.len() - 1 - i]),
                ),
            }).advance(),
    {
        let ghost before = Run::<V> {
            chunks: chunk_views(chunks@),
            phase: Phase::Storing,
            written: written as nat,
            pending: Seq::new(
                waiting.len() as nat,
                |i: int| outcome_view(waiting[waiting.len() - 1 - i]),
            ),
        };
        if written >= chunks.len() {
            let text = summary_text(chunks.len());
            let ended = Pipeline::finish(chunks, written);
            assert(ended@ =~= before.finished());
            (ended, Action::Finish(Ok(text)))
        } else {
            let mut waiting = waiting;
            let ghost all = waiting@;
            let outcome = waiting.pop().unwrap();
            assert(before.pending.first() == outcome_view(outcome));
            match outcome {
                Err(why) => {
                    let ended = Pipeline::finish(chunks, written);
                    assert(ended@ =~= before.finished());
                    (ended, Action::Finish(Err(why)))
                },
                Ok(vector) => {
                    let record = StoredRecord::for_chunk(&chunks[written], vector);
                    let moved = Pipeline {
                        chunks,
                        phase: Phase::Storing,
                        written: written + 1,
                        waiting,
                    };
                    assert(moved@.pending =~= before.pending.drop_first());
                    (moved, Action::Store(record))
                },
            }
        }
    }

    /// One step of the upload: takes what came of the request that is
    /// outstanding, and names the next request. An event that does not answer
    /// the outstanding request is ignored: the upload stays as it is, and
    /// there is no new request.
    pub fn step(self, event: Event<V>) -> (next: (Pipeline<V>, Option<Action<V>>))
        ensures
            (next.0@, request_view(next.1)) == self@.next(event@),
            next.0@.wf(),
    {
        proof {
            use_type_invariant(&self);
            lemma_step(self@, event@);
        }
        let ghost before = self@;
        let Pipeline { chunks, phase, written, waiting } = self;
        match phase {
            Phase::Clearing => match event {
                Event::Cleared(Err(why)) => {
                    let ended = Pipeline::finish(chunks, written);
                    (ended, Some(Action::Finish(Err(why))))
                },
                Event::Cleared(Ok(_)) => {
                    if chunks.len() == 0 {
                        let ended = Pipeline::finish(chunks, written);
                        (ended, Some(Action::Finish(Ok(summary_text(0)))))
                    } else {
                        let batch = copy_chunks(&chunks);
                        let embedding = Pipeline {
                            chunks,
                            phase: Phase::Embedding,
                            written,
                            waiting,
                        };
                        assert(embedding@ =~= (Run { phase: Phase::Embedding, ..before }));
                        (embedding, Some(Action::Embed(batch)))
                    }
                },
                _ => {
                    let same = Pipeline { chunks, phase, written, waiting };
                    assert(same@ =~= before);
                    (same, None)
                },
            },
            Phase::Embedding => match event {
                Event::Embedded(outcomes) => {
                    if outcomes.len() == chunks.len() {
                        let ghost given = outcome_views(outcomes@);
                        let turned = reversed(outcomes);
                        assert(Seq::new(
                            turned.len() as nat,
                            |i: int| outcome_view(turned[turned.len() - 1 - i]),
                        ) =~= given);
                        let (moved, action) = Pipeline::advance(chunks, written, turned);
                        (moved, Some(action))
                    } else {
                        let same = Pipeline { chunks, phase, written, waiting };
                        assert(same@ =~= before);
                        (same, None)
                    }
                },
                _ => {
                    let same = Pipeline { chunks, phase, written, waiting };
                    assert(same@ =~= before);
                    (same, None)
                },
            },
            Phase::Storing => match event {
                Event::Stored(Err(why)) => {
                    let ended = Pipeline::finish(chunks, written);
                    (ended, Some(Action::Finish(Err(why))))
                },
                Event::Stored(Ok(_)) => {
                    let (moved, action) = Pipeline::advance(chunks, written, waiting);
                    (moved, Some(action))
                },
                _ => {
                    let same = Pipeline { chunks, phase, written, waiting };
                    assert(same@ =~= before);
                    (same, None)
                },
            },
            Phase::Finished => {
                let same = Pipeline { chunks, phase, written, waiting };
                assert(same@ =~= before);
                (same, None)
            },
        }
    }

    /// Where the upload stands.
    pub fn phase(&self) -> (phase: Phase)
        ensures
            phase == self@.phase,
    {
        self.phase
    }

    /// The number of chunks of the text.
    pub fn chunk_count(&self) -> (count: usize)
        ensures
            count == self@.chunks.len(),
    {
        self.chunks.len()
    }

    /// The number of records handed out for writing so far.
    pub fn written(&self) -> (count: usize)
        ensures
            count == self@.written,
    {
        self.written
    }
}

} // verus!
