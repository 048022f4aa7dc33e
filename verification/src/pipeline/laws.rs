//! What holds of every upload, proved from the model.
//!
//! The sequence of requests of an upload is given in closed form
//! ([`lemma_process`]): it depends on the chunk at which the upload stops
//! only. The other laws are read off from it.

use crate::chunker::{chunks_of, pieces, ChunkView, CHUNK_SIZE};
use crate::pipeline::model::{process, summary, Backends, Call, Phase, Reply, Run};
use crate::storage::{chunk_id, record_of, RecordView};
use vstd::prelude::*;

verus! {

impl<V> Backends<V> {
    /// The first chunk from `from` on at which an upload of `count` chunks
    /// stops: the first whose embedding or whose write fails. `count` where
    /// there is none.
    pub open spec fn stop(self, count: nat, from: nat) -> nat
        decreases count - from,
    {
        if from >= count {
            count
        } else if self.embeddings[from as int] is Err || self.writes[from as int] is Err {
            from
        } else {
            self.stop(count, from + 1)
        }
    }

    /// The number of records that an upload of `count` chunks hands to the
    /// store: one for each chunk before the one at which it stops, and one
    /// for that chunk too where it has its embedding (and so it is the write
    /// that fails).
    pub open spec fn records(self, count: nat) -> nat {
        let stop = self.stop(count, 0);
        if stop < count && self.embeddings[stop as int] is Ok {
            stop + 1
        } else {
            stop
        }
    }

    /// The result of an upload of `count` chunks once the store is clear:
    /// the summary where nothing fails, and else the failure of the chunk at
    /// which it stops, that of the embedding before that of the write.
    pub open spec fn verdict(self, count: nat) -> Result<Seq<char>, Seq<char>> {
        let stop = self.stop(count, 0);
        if stop >= count {
            Ok(summary(count))
        } else {
            match self.embeddings[stop as int] {
                Err(why) => Err(why),
                Ok(_) => Err(self.writes[stop as int]->Err_0),
            }
        }
    }

    /// The record of chunk `index`, with the embedding that the service gave.
    pub open spec fn record(self, chunks: Seq<ChunkView>, index: int) -> RecordView<V> {
        record_of(chunks[index], self.embeddings[index]->Ok_0)
    }

    /// The requests to write the records of the chunks from `from` up to, and
    /// not including, `to`, in chunk order.
    pub open spec fn stores(self, chunks: Seq<ChunkView>, from: nat, to: nat) -> Seq<Call<V>> {
        Seq::new((to - from) as nat, |k: int| Call::Store(self.record(chunks, from + k)))
    }
}

/// A step leaves a well-formed upload well-formed, and brings it nearer to
/// its end unless the reply is ignored.
pub proof fn lemma_step<V>(run: Run<V>, reply: Reply<V>)
    requires
        run.wf(),
    ensures
        run.next(reply).0.wf(),
        run.next(reply).0.chunks == run.chunks,
        run.next(reply).1 is Some ==> run.next(reply).0.steps_left() < run.steps_left(),
        run.next(reply).1 is None ==> run.next(reply).0 == run,
{
}

/// While nothing fails before chunk `upto`, the upload stops where it would
/// stop if it were looked at from `upto` on only.
proof fn lemma_stop_skips<V>(services: Backends<V>, count: nat, from: nat, upto: nat)
    requires
        from <= upto <= count,
        forall|i: int|
            from <= i < upto ==> services.embeddings[i] is Ok && services.writes[i] is Ok,
    ensures
        services.stop(count, from) == services.stop(count, upto),
        upto <= services.stop(count, upto) <= count,
    decreases count - from,
{
    if from < upto {
        lemma_stop_skips(services, count, from + 1, upto);
    } else {
        lemma_stop_bounds(services, count, upto);
    }
}

/// The upload stops at a chunk from `from` on, or at the end.
proof fn lemma_stop_bounds<V>(services: Backends<V>, count: nat, from: nat)
    requires
        from <= count,
    ensures
        from <= services.stop(count, from) <= count,
        forall|i: int|
            from <= i < services.stop(count, from) ==> services.embeddings[i] is Ok
                && services.writes[i] is Ok,
        services.stop(count, from) < count ==> services.embeddings[services.stop(
            count,
            from,
        ) as int] is Err || services.writes[services.stop(count, from) as int] is Err,
    decreases count - from,
{
    if from < count && !(services.embeddings[from as int] is Err || services.writes[from as int]
        is Err) {
        lemma_stop_bounds(services, count, from + 1);
    }
}

/// The requests of an upload from the write of chunk `run.written - 1` on,
/// where nothing has failed before that chunk and its embedding is there:
/// the writes up to the chunk at which the upload stops, then its end.
proof fn lemma_history_of_writes<V>(run: Run<V>, services: Backends<V>)
    requires
        run.wf(),
        run.phase is Storing,
        services.covers(run.chunks.len()),
        run.pending == services.embeddings.skip(run.written as int),
        forall|i: int|
            0 <= i < run.written - 1 ==> services.embeddings[i] is Ok && services.writes[i] is Ok,
        services.embeddings[run.written - 1] is Ok,
    ensures
        run.history(Call::Store(services.record(run.chunks, run.written - 1)), services)
            == services.stores(
            run.chunks,
            (run.written - 1) as nat,
            services.records(run.chunks.len()),
        ) + seq![Call::Finish(services.verdict(run.chunks.len()))],
        run.written <= services.records(run.chunks.len()) <= run.chunks.len(),
    decreases run.steps_left(),
{
    let count = run.chunks.len();
    let at: int = run.written - 1;
    let call = Call::Store(services.record(run.chunks, at));
    let history = run.history(call, services);
    let reply = Reply::Stored(services.writes[at]);
    assert(services.answer(run, call) == Some(reply));
    lemma_stop_skips(services, count, 0, at as nat);
    lemma_step(run, reply);
    match services.writes[at] {
        Err(why) => {
            assert(services.stop(count, at as nat) == at);
            let end = Call::Finish(Err(why));
            assert(run.next(reply) == (run.finished(), Some(end)));
            assert(run.finished().history(end, services) == seq![end]);
            assert(history == seq![call] + seq![end]);
            assert(services.stores(run.chunks, at as nat, (at + 1) as nat) =~= seq![call]);
        },
        Ok(_) => {
            lemma_stop_skips(services, count, 0, (at + 1) as nat);
            assert(run.next(reply) == (run.advance().0, Some(run.advance().1)));
            if run.written >= count {
                assert(services.stop(count, (at + 1) as nat) == count);
                let end = Call::Finish(Ok(summary(count)));
                assert(run.finished().history(end, services) == seq![end]);
                assert(history == seq![call] + seq![end]);
                assert(services.stores(run.chunks, at as nat, count) =~= seq![call]);
            } else {
                assert(run.pending.first() == services.embeddings[at + 1]);
                match services.embeddings[at + 1] {
                    Err(why) => {
                        assert(services.stop(count, (at + 1) as nat) == at + 1);
                        let end = Call::Finish(Err(why));
                        assert(run.finished().history(end, services) == seq![end]);
                        assert(history == seq![call] + seq![end]);
                        assert(services.stores(run.chunks, at as nat, (at + 1) as nat) =~= seq![call]);
                    },
                    Ok(vector) => {
                        let after = run.advance().0;
                        let then = run.advance().1;
                        assert(then == Call::Store(services.record(run.chunks, at + 1)));
                        assert(after.pending =~= services.embeddings.skip(after.written as int));
                        lemma_history_of_writes(after, services);
                        let total = services.records(count);
                        assert(history == seq![call] + after.history(then, services));
                        assert(seq![call] + services.stores(run.chunks, (at + 1) as nat, total)
                            =~= services.stores(run.chunks, at as nat, total));
                        assert(history =~= services.stores(run.chunks, at as nat, total)
                            + seq![Call::Finish(services.verdict(count))]);
                    },
                }
            }
        },
    }
}

/// What an upload does, request by request. It first clears the store. If
/// that fails, it ends with the failure. If the text has no chunks, it ends
/// with the summary of zero chunks. Otherwise it asks for the embeddings of
/// all chunks, writes the records of the chunks in index order up to the
/// chunk at which it stops, and ends with its verdict.
pub proof fn lemma_process<V>(text: Seq<char>, services: Backends<V>)
    requires
        services.clear is Ok ==> services.covers(chunks_of(text, CHUNK_SIZE as nat).len()),
    ensures
        ({
            let chunks = chunks_of(text, CHUNK_SIZE as nat);
            let count = chunks.len();
            process(text, services) == match services.clear {
                Err(why) => seq![Call::Clear, Call::Finish(Err(why))],
                Ok(_) => if count == 0 {
                    seq![Call::Clear, Call::Finish(Ok(summary(0)))]
                } else {
                    seq![Call::Clear, Call::Embed(chunks)] + services.stores(
                        chunks,
                        0,
                        services.records(count),
                    ) + seq![Call::Finish(services.verdict(count))]
                },
            }
        }),
        services.records(chunks_of(text, CHUNK_SIZE as nat).len()) <= chunks_of(
            text,
            CHUNK_SIZE as nat,
        ).len(),
{
    let run = Run::<V>::begin(text);
    let chunks = run.chunks;
    let count = chunks.len();
    let history = process(text, services);
    let cleared = Reply::Cleared(services.clear);
    assert(run.wf());
    assert(services.answer(run, Call::Clear) == Some(cleared));
    lemma_step(run, cleared);
    lemma_stop_bounds(services, count, 0);
    match services.clear {
        Err(why) => {
            let end = Call::Finish(Err(why));
            assert(run.next(cleared) == (run.finished(), Some(end)));
            assert(run.finished().history(end, services) == seq![end]);
            assert(history =~= seq![Call::Clear, end]);
        },
        Ok(_) => {
            if count == 0 {
                let end = Call::Finish(Ok(summary(0)));
                assert(run.next(cleared) == (run.finished(), Some(end)));
                assert(run.finished().history(end, services) == seq![end]);
                assert(history =~= seq![Call::Clear, end]);
            } else {
                let embedding = Run { phase: Phase::Embedding, ..run };
                let embed = Call::Embed(chunks);
                assert(run.next(cleared) == (embedding, Some(embed)));
                assert(history == seq![Call::Clear] + embedding.history(embed, services));
                let embedded = Reply::Embedded(services.embeddings);
                assert(services.answer(embedding, embed) == Some(embedded));
                lemma_step(embedding, embedded);
                let filled = Run { pending: services.embeddings, ..embedding };
                assert(embedding.next(embedded) == (filled.advance().0, Some(filled.advance().1)));
                match services.embeddings[0] {
                    Err(why) => {
                        let end = Call::Finish(Err(why));
                        assert(services.stop(count, 0) == 0);
                        assert(filled.finished().history(end, services) == seq![end]);
                        assert(embedding.history(embed, services) == seq![embed] + seq![end]);
                        assert(services.stores(chunks, 0, 0) =~= Seq::<Call<V>>::empty());
                        assert(history =~= seq![Call::Clear, embed] + services.stores(chunks, 0, 0)
                            + seq![end]);
                    },
                    Ok(vector) => {
                        let writing = filled.advance().0;
                        let first = filled.advance().1;
                        assert(first == Call::Store(services.record(chunks, 0)));
                        assert(writing.pending =~= services.embeddings.skip(1));
                        lemma_history_of_writes(writing, services);
                        assert(embedding.history(embed, services) == seq![embed] + writing.history(
                            first,
                            services,
                        ));
                        assert(history =~= seq![Call::Clear, embed] + services.stores(
                            chunks,
                            0,
                            services.records(count),
                        ) + seq![Call::Finish(services.verdict(count))]);
                    },
                }
            }
        },
    }
}

/// The first chunk at which an upload stops is no later than any chunk whose
/// embedding or write fails.
proof fn lemma_stop_is_first<V>(services: Backends<V>, count: nat, from: nat, failed: int)
    requires
        from <= failed < count,
        services.embeddings[failed] is Err || services.writes[failed] is Err,
    ensures
        from <= services.stop(count, from) <= failed,
    decreases count - from,
{
    if !(services.embeddings[from as int] is Err || services.writes[from as int] is Err) {
        lemma_stop_is_first(services, count, from + 1, failed);
    }
}

/// An empty text uploads nothing. The store is cleared all the same; then
/// the upload ends, with the summary of zero chunks where the store could be
/// cleared. No embedding is asked for and no record is written, whatever the
/// services would have answered.
pub proof fn lemma_empty_text_uploads_nothing<V>(services: Backends<V>)
    ensures
        chunks_of(Seq::<char>::empty(), CHUNK_SIZE as nat).len() == 0,
        process(Seq::<char>::empty(), services) == match services.clear {
            Ok(_) => seq![Call::<V>::Clear, Call::Finish(Ok(summary(0)))],
            Err(why) => seq![Call::<V>::Clear, Call::Finish(Err(why))],
        },
{
    let run = Run::<V>::begin(Seq::<char>::empty());
    let cleared = Reply::Cleared(services.clear);
    assert(run.wf());
    assert(services.answer(run, Call::Clear) == Some(cleared));
    let end = run.next(cleared).1->Some_0;
    assert(run.next(cleared).0 == run.finished());
    assert(run.finished().history(end, services) == seq![end]);
    assert(process(Seq::<char>::empty(), services) =~= seq![Call::Clear, end]);
}

/// The store is cleared before anything is written, and the records are
/// written in chunk order with none left out. The first request is to clear
/// the store. A request to write stands at a position `k` of at least 2, and
/// it writes the record of chunk `k - 2`: the chunk's identifier, the
/// embedding that the service gave for it, and its text. So chunk 0 is
/// written right after the embeddings were asked for, and each later chunk
/// right after the one before it, in whichever order the embeddings arrived.
pub proof fn lemma_writes_follow_clear_in_order<V>(text: Seq<char>, services: Backends<V>, k: int)
    requires
        services.covers(chunks_of(text, CHUNK_SIZE as nat).len()),
        0 <= k < process(text, services).len(),
        process(text, services)[k] is Store,
    ensures
        process(text, services)[0] == Call::<V>::Clear,
        2 <= k < chunks_of(text, CHUNK_SIZE as nat).len() + 2,
        services.embeddings[k - 2] is Ok,
        process(text, services)[k] == Call::Store(
            RecordView {
                id: chunk_id((k - 2) as nat),
                vector: services.embeddings[k - 2]->Ok_0,
                text: pieces(text, CHUNK_SIZE as nat)[k - 2],
            },
        ),
{
    lemma_process(text, services);
    let chunks = chunks_of(text, CHUNK_SIZE as nat);
    let count = chunks.len();
    let records = services.records(count);
    lemma_stop_bounds(services, count, 0);
    assert(services.clear is Ok && count > 0);
    assert(process(text, services)[k] == services.stores(chunks, 0, records)[k - 2]);
    if k - 2 < services.stop(count, 0) {
        assert(services.embeddings[k - 2] is Ok && services.writes[k - 2] is Ok);
    }
}

/// Where nothing fails, every chunk is written: after the store is cleared
/// and the embeddings are asked for, there is one write for each chunk, in
/// index order, and the upload ends with the summary of all its chunks.
pub proof fn lemma_upload_without_failure<V>(text: Seq<char>, services: Backends<V>)
    requires
        services.covers(chunks_of(text, CHUNK_SIZE as nat).len()),
        services.clear is Ok,
        forall|i: int|
            0 <= i < chunks_of(text, CHUNK_SIZE as nat).len() ==> services.embeddings[i] is Ok
                && services.writes[i] is Ok,
    ensures
        ({
            let chunks = chunks_of(text, CHUNK_SIZE as nat);
            process(text, services) == if chunks.len() == 0 {
                seq![Call::Clear, Call::Finish(Ok(summary(0)))]
            } else {
                seq![Call::Clear, Call::Embed(chunks)] + services.stores(chunks, 0, chunks.len())
                    + seq![Call::Finish(Ok(summary(chunks.len())))]
            }
        }),
{
    lemma_process(text, services);
    let count = chunks_of(text, CHUNK_SIZE as nat).len();
    lemma_stop_skips(services, count, 0, count);
}

/// A chunk whose embedding fails fails the upload. The upload ends with a
/// failure, and no record is written for that chunk or for any chunk after
/// it. Where the store could be cleared and nothing else fails before that
/// chunk, the records of the chunks before it are written, and the upload
/// ends with the failure of that embedding.
pub proof fn lemma_failed_embedding_fails_upload<V>(
    text: Seq<char>,
    services: Backends<V>,
    failed: int,
)
    requires
        services.covers(chunks_of(text, CHUNK_SIZE as nat).len()),
        0 <= failed < chunks_of(text, CHUNK_SIZE as nat).len(),
        services.embeddings[failed] is Err,
    ensures
        process(text, services).last() matches Call::Finish(Err(_)),
        forall|k: int|
            0 <= k < process(text, services).len() && process(text, services)[k] is Store ==> k
                - 2 < failed,
        services.clear is Ok && (forall|i: int|
            0 <= i < failed ==> services.embeddings[i] is Ok && services.writes[i] is Ok)
            ==> process(text, services) == seq![
            Call::Clear,
            Call::Embed(chunks_of(text, CHUNK_SIZE as nat)),
        ] + services.stores(chunks_of(text, CHUNK_SIZE as nat), 0, failed as nat)
            + seq![Call::Finish(Err(services.embeddings[failed]->Err_0))],
{
    lemma_process(text, services);
    let chunks = chunks_of(text, CHUNK_SIZE as nat);
    let count = chunks.len();
    lemma_stop_is_first(services, count, 0, failed);
    lemma_stop_bounds(services, count, 0);
    let records = services.records(count);
    assert(records <= failed);
    if services.clear is Ok && (forall|i: int|
        0 <= i < failed ==> services.embeddings[i] is Ok && services.writes[i] is Ok) {
        assert(services.stop(count, 0) == failed);
    }
}

} // verus!
