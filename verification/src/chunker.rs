//! The chunker: cuts a text into consecutive runs of at most a given number of
//! characters.
//!
//! Cuts fall on character boundaries only. Words and sentences are not looked
//! at, so a chunk may end in the middle of either.

use vstd::arithmetic::div_mod::{
    lemma_basic_div, lemma_div_by_self, lemma_div_minus_one, lemma_mod_pos_bound,
    lemma_mod_self_0, lemma_mod_sub_multiples_vanish, lemma_small_mod,
};
use vstd::prelude::*;
use vstd::string::*;

verus! {

/// The number of characters in a chunk of the upload pipeline.
pub const CHUNK_SIZE: usize = 8000;

/// A contiguous slice of an input text, tagged with its position among the
/// slices of that text.
#[derive(Debug)]
pub struct Chunk {
    pub index: usize,
    pub text: String,
}

/// What a [`Chunk`] stands for.
pub struct ChunkView {
    pub index: nat,
    pub text: Seq<char>,
}

impl View for Chunk {
    type V = ChunkView;

    open spec fn view(&self) -> ChunkView {
        ChunkView { index: self.index as nat, text: self.text@ }
    }
}

impl Clone for Chunk {
    fn clone(&self) -> (copy: Chunk)
        ensures
            copy@ == self@,
    {
        Chunk { index: self.index, text: self.text.clone() }
    }
}

/// The views of a sequence of chunks, in order.
pub open spec fn chunk_views(chunks: Seq<Chunk>) -> Seq<ChunkView> {
    Seq::new(chunks.len(), |i: int| chunks[i]@)
}

/// The texts of a sequence of chunks, in order.
pub open spec fn chunk_texts(chunks: Seq<ChunkView>) -> Seq<Seq<char>> {
    Seq::new(chunks.len(), |i: int| chunks[i].text)
}

/// The pieces that `text` falls into when it is cut after every `size`
/// characters: none for an empty text, and otherwise pieces of exactly `size`
/// characters followed by a last one of at most `size`.
pub open spec fn pieces(text: Seq<char>, size: nat) -> Seq<Seq<char>>
    decreases text.len(),
{
    if size == 0 || text.len() == 0 {
        Seq::empty()
    } else if text.len() <= size {
        seq![text]
    } else {
        seq![text.take(size as int)] + pieces(text.skip(size as int), size)
    }
}

/// The chunks of `text` for chunks of `size` characters: its pieces, each
/// tagged with its position.
pub open spec fn chunks_of(text: Seq<char>, size: nat) -> Seq<ChunkView> {
    Seq::new(
        pieces(text, size).len(),
        |i: int| ChunkView { index: i as nat, text: pieces(text, size)[i] },
    )
}

/// The number of pieces of a text of `len` characters: `len / size`, rounded
/// up.
pub open spec fn piece_count(len: nat, size: nat) -> nat {
    if size == 0 {
        0
    } else if len % size == 0 {
        len / size
    } else {
        len / size + 1
    }
}

/// The number of characters in the last piece of a text of `len` characters,
/// which is not empty: a full piece where `size` divides `len`, and the
/// remainder where it does not.
pub open spec fn last_piece_len(len: nat, size: nat) -> nat {
    if size == 0 {
        0
    } else if len % size == 0 {
        size
    } else {
        len % size
    }
}

/// The texts of the chunks of a text are its pieces.
pub proof fn lemma_chunk_texts(text: Seq<char>, size: nat)
    ensures
        chunk_texts(chunks_of(text, size)) == pieces(text, size),
{
    assert(chunk_texts(chunks_of(text, size)) =~= pieces(text, size));
}

/// Chunking loses nothing: the chunks of a text, joined in index order, are
/// the text.
pub proof fn lemma_split_lossless(text: Seq<char>, size: nat)
    requires
        size > 0,
    ensures
        pieces(text, size).flatten() == text,
        chunk_texts(chunks_of(text, size)).flatten() == text,
    decreases text.len(),
{
    lemma_chunk_texts(text, size);
    if text.len() == 0 {
        assert(pieces(text, size).flatten() =~= text);
    } else if text.len() <= size {
        let only = seq![text];
        assert(only.drop_first() =~= Seq::<Seq<char>>::empty());
        assert(only.drop_first().flatten() =~= Seq::<char>::empty());
        assert(only.flatten() =~= text);
    } else {
        let head = text.take(size as int);
        let tail = text.skip(size as int);
        lemma_split_lossless(tail, size);
        let all = seq![head] + pieces(tail, size);
        assert(all.first() == head);
        assert(all.drop_first() =~= pieces(tail, size));
        assert(all.flatten() =~= head + tail);
        assert(head + tail =~= text);
    }
}

/// A text that fits into one chunk, and is not empty, is returned as exactly
/// one chunk: the whole text, with index 0.
pub proof fn lemma_short_text_is_one_chunk(text: Seq<char>, size: nat)
    requires
        0 < text.len() <= size,
    ensures
        chunks_of(text, size) == seq![ChunkView { index: 0, text }],
{
    assert(chunks_of(text, size) =~= seq![ChunkView { index: 0, text }]);
}

/// The empty text has no chunks.
pub proof fn lemma_empty_text_has_no_chunks(size: nat)
    ensures
        chunks_of(Seq::<char>::empty(), size) == Seq::<ChunkView>::empty(),
{
    assert(chunks_of(Seq::<char>::empty(), size) =~= Seq::<ChunkView>::empty());
}

/// The sizes of the pieces: there are `len / size` of them, rounded up; every
/// piece but the last has exactly `size` characters; the last has what is
/// left; and no piece is empty or longer than `size`.
pub proof fn lemma_piece_lengths(text: Seq<char>, size: nat)
    requires
        size > 0,
    ensures
        pieces(text, size).len() == piece_count(text.len(), size),
        forall|i: int|
            0 <= i < pieces(text, size).len() - 1 ==> (#[trigger] pieces(text, size)[i]).len()
                == size,
        text.len() > 0 ==> pieces(text, size).last().len() == last_piece_len(text.len(), size),
        forall|i: int|
            0 <= i < pieces(text, size).len() ==> 0 < (#[trigger] pieces(text, size)[i]).len()
                <= size,
    decreases text.len(),
{
    let len = text.len() as int;
    let d = size as int;
    lemma_mod_pos_bound(len, d);
    if len == 0 {
        lemma_basic_div(0, d);
        lemma_small_mod(0, size);
    } else if len < d {
        lemma_basic_div(len, d);
        lemma_small_mod(text.len(), size);
    } else if len == d {
        lemma_div_by_self(d);
        lemma_mod_self_0(d);
    } else {
        let head = text.take(d);
        let tail = text.skip(d);
        lemma_piece_lengths(tail, size);
        let rest = pieces(tail, size);
        let all = seq![head] + rest;
        assert(tail.len() == len - d);
        lemma_div_minus_one(len, d);
        lemma_mod_sub_multiples_vanish(len, d);
        assert((len - d) / d == len / d - 1);
        assert((len - d) % d == len % d);
        assert(all.len() == rest.len() + 1);
        assert forall|i: int| 0 <= i < all.len() - 1 implies (#[trigger] all[i]).len() == size by {
            if i > 0 {
                assert(all[i] == rest[i - 1]);
            }
        }
        assert(all.last() == rest.last());
        assert forall|i: int| 0 <= i < all.len() implies 0 < (#[trigger] all[i]).len() <= size by {
            if i > 0 {
                assert(all[i] == rest[i - 1]);
            }
        }
    }
}

/// Cuts `text` into chunks of `chunk_size` characters; the last chunk holds
/// what is left and may be shorter. An empty text gives no chunks.
pub fn split(text: &str, chunk_size: usize) -> (chunks: Vec<Chunk>)
    requires
        chunk_size > 0,
    ensures
        chunk_views(chunks@) == chunks_of(text@, chunk_size as nat),
        chunk_texts(chunk_views(chunks@)).flatten() == text@,
        chunks.len() == piece_count(text@.len(), chunk_size as nat),
{
    let total = text.unicode_len();
    let ghost all = pieces(text@, chunk_size as nat);
    let mut chunks: Vec<Chunk> = Vec::new();
    let mut start: usize = 0;
    assert(text@.skip(0) =~= text@);
    while start < total
        invariant
            chunk_size > 0,
            total == text@.len(),
            start <= total,
            all == pieces(text@, chunk_size as nat),
            chunks.len() <= all.len(),
            chunks.len() <= start,
            all.skip(chunks.len() as int) == pieces(text@.skip(start as int), chunk_size as nat),
            forall|i: int|
                0 <= i < chunks.len() ==> (#[trigger] chunks[i])@ == (ChunkView {
                    index: i as nat,
                    text: all[i],
                }),
        decreases total - start,
    {
        let end = if total - start > chunk_size {
            start + chunk_size
        } else {
            total
        };
        let piece = text.substring_char(start, end);
        let ghost rest = text@.skip(start as int);
        proof {
            let later = pieces(rest, chunk_size as nat);
            assert(later.len() > 0);
            assert(later == all.skip(chunks.len() as int));
            assert(later[0] == all[chunks.len() as int]);
            if total - start > chunk_size {
                assert(piece@ =~= rest.take(chunk_size as int));
                assert(rest.skip(chunk_size as int) =~= text@.skip(end as int));
                assert(later.skip(1) =~= pieces(text@.skip(end as int), chunk_size as nat));
            } else {
                assert(piece@ =~= rest);
                assert(text@.skip(end as int).len() == 0);
                assert(later.skip(1) =~= pieces(text@.skip(end as int), chunk_size as nat));
            }
            assert(all.skip(chunks.len() as int).skip(1) =~= all.skip(chunks.len() + 1));
        }
        chunks.push(Chunk { index: chunks.len(), text: String::from_str(piece) });
        start = end;
    }
    proof {
        assert(text@.skip(start as int).len() == 0);
        assert(all.skip(chunks.len() as int).len() == 0);
        assert(chunk_views(chunks@) =~= chunks_of(text@, chunk_size as nat));
        lemma_split_lossless(text@, chunk_size as nat);
        lemma_piece_lengths(text@, chunk_size as nat);
    }
    chunks
}

} // verus!
