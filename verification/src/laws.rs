//! Laws of the model, each proved from the definitions in [`crate::model`].
//!
//! The contracts of the crate's functions are stated over those definitions, so each law here
//! holds of every run of the functions it speaks of.

use crate::model::{absorb, absorb_all, byte_count, cleared, digest, fresh, total_len, written};
use vstd::prelude::*;

verus! {

/// Absorbing an empty chunk changes nothing.
pub proof fn lemma_absorb_nothing(prior: Seq<u8>)
    ensures
        absorb(prior, Seq::empty()) == prior,
{
}

/// Absorbing two chunks one after the other is absorbing their concatenation at once.
pub proof fn lemma_absorb_twice(prior: Seq<u8>, first: Seq<u8>, second: Seq<u8>)
    ensures
        absorb(absorb(prior, first), second) == absorb(prior, first + second),
{
}

/// Chunking is associative: however a message is cut into chunks, absorbing the chunks in
/// order leaves the stream holding what absorbing the whole message at once leaves.
pub proof fn lemma_chunking_associative(prior: Seq<u8>, chunks: Seq<Seq<u8>>)
    ensures
        absorb_all(prior, chunks) == absorb(prior, chunks.flatten()),
    decreases chunks.len(),
{
    if chunks.len() == 0 {
        lemma_absorb_nothing(prior);
    } else {
        lemma_chunking_associative(absorb(prior, chunks.first()), chunks.drop_first());
        lemma_absorb_twice(prior, chunks.first(), chunks.drop_first().flatten());
    }
}

/// Two ways of cutting the same message into chunks leave the stream holding the same.
pub proof fn lemma_chunking_irrelevant(prior: Seq<u8>, one: Seq<Seq<u8>>, other: Seq<Seq<u8>>)
    requires
        one.flatten() == other.flatten(),
    ensures
        absorb_all(prior, one) == absorb_all(prior, other),
{
    lemma_chunking_associative(prior, one);
    lemma_chunking_associative(prior, other);
}

/// A stream that was just made and one that was just reset give the same output of any
/// length: the output for the empty message.
pub proof fn lemma_digest_of_empty(prior: Seq<u8>, len: nat)
    ensures
        digest(fresh(), len) == digest(Seq::empty(), len),
        digest(cleared(prior), len) == digest(Seq::empty(), len),
{
}

/// A shorter output is a prefix of a longer one for the same message, and the longer one is
/// the shorter one followed by the rest.
pub proof fn lemma_digest_prefix(message: Seq<u8>, short: nat, more: nat)
    ensures
        digest(message, short).len() == short,
        digest(message, short) == digest(message, short + more).take(short as int),
        digest(message, short + more) == digest(message, short) + digest(
            message,
            short + more,
        ).skip(short as int),
{
}

/// Reading into a shorter buffer and into a longer one, both from offset 0 and from the same
/// stream, agrees on the whole of the shorter buffer.
pub proof fn lemma_shorter_read_is_prefix(short: Seq<u8>, long: Seq<u8>, message: Seq<u8>)
    requires
        short.len() <= long.len(),
    ensures
        written(short, 0, message) == written(long, 0, message).take(short.len() as int),
{
    lemma_digest_prefix(message, short.len(), (long.len() - short.len()) as nat);
}

/// Absorbing a chunk adds its length to the byte count, which therefore never goes down
/// while a stream absorbs.
pub proof fn lemma_count_grows(prior: Seq<u8>, chunk: Seq<u8>)
    ensures
        byte_count(absorb(prior, chunk)) == byte_count(prior) + chunk.len(),
        byte_count(absorb(prior, chunk)) >= byte_count(prior),
{
}

/// The byte count after absorbing chunks is the count before plus the bytes in all of them,
/// however many chunks there are.
pub proof fn lemma_count_adds_up(prior: Seq<u8>, chunks: Seq<Seq<u8>>)
    ensures
        byte_count(absorb_all(prior, chunks)) == byte_count(prior) + total_len(chunks),
    decreases chunks.len(),
{
    if chunks.len() > 0 {
        lemma_count_grows(prior, chunks.first());
        lemma_count_adds_up(absorb(prior, chunks.first()), chunks.drop_first());
    }
}

/// The byte count of a stream that absorbed chunks since it was made, or since it was reset,
/// is the number of bytes in all of them; right after a reset it is zero.
pub proof fn lemma_count_is_total(prior: Seq<u8>, chunks: Seq<Seq<u8>>)
    ensures
        byte_count(absorb_all(fresh(), chunks)) == total_len(chunks),
        byte_count(absorb_all(cleared(prior), chunks)) == total_len(chunks),
        byte_count(cleared(prior)) == 0,
{
    lemma_count_adds_up(fresh(), chunks);
}

/// A write from `offset` keeps the buffer's length, leaves the bytes before `offset` as they
/// were, and puts in the rest exactly the output counted from its start.
pub proof fn lemma_written_parts(buffer: Seq<u8>, offset: int, message: Seq<u8>)
    requires
        0 <= offset <= buffer.len(),
    ensures
        written(buffer, offset, message).len() == buffer.len(),
        written(buffer, offset, message).take(offset) == buffer.take(offset),
        written(buffer, offset, message).skip(offset) == digest(
            message,
            (buffer.len() - offset) as nat,
        ),
{
}

/// A write from the end of the buffer writes nothing.
pub proof fn lemma_written_at_end(buffer: Seq<u8>, message: Seq<u8>)
    ensures
        written(buffer, buffer.len() as int, message) == buffer,
{
}

/// Resetting a stream that holds nothing changes nothing, and resetting twice is resetting
/// once.
pub proof fn lemma_reset_idempotent(prior: Seq<u8>)
    ensures
        cleared(fresh()) == fresh(),
        cleared(cleared(prior)) == cleared(prior),
{
}

/// Hashing a message in one call gives what a stream gives that was made, absorbed the
/// message in one write, and was read from.
pub proof fn lemma_one_call_is_a_stream(
    buffer: Seq<u8>,
    offset: int,
    input: Seq<u8>,
    len: nat,
)
    ensures
        digest(input, len) == digest(absorb(fresh(), input), len),
        written(buffer, offset, input) == written(buffer, offset, absorb(fresh(), input)),
{
    assert(absorb(fresh(), input) =~= input);
}

} // verus!
