//! The mathematical model of a stream.
//!
//! A stream is the message it has absorbed, a sequence of bytes. Everything a caller can
//! observe of a stream (its byte count and the output it gives) is a function of that message,
//! so two streams that hold the same message cannot be told apart.

use crate::hasher::xof_stream;
use vstd::prelude::*;

verus! {

/// The message of a stream that has absorbed nothing.
pub open spec fn fresh() -> Seq<u8> {
    Seq::empty()
}

/// The message of a stream that held `prior` and then absorbed `chunk`.
pub open spec fn absorb(prior: Seq<u8>, chunk: Seq<u8>) -> Seq<u8> {
    prior + chunk
}

/// The message of a stream that held `prior` and then absorbed each of `chunks`, in order.
pub open spec fn absorb_all(prior: Seq<u8>, chunks: Seq<Seq<u8>>) -> Seq<u8>
    decreases chunks.len(),
{
    if chunks.len() == 0 {
        prior
    } else {
        absorb_all(absorb(prior, chunks.first()), chunks.drop_first())
    }
}

/// The message of a stream after a reset, whatever it held before.
pub open spec fn cleared(prior: Seq<u8>) -> Seq<u8> {
    fresh()
}

/// The number of bytes a stream that holds `message` has absorbed.
pub open spec fn byte_count(message: Seq<u8>) -> nat {
    message.len()
}

/// The number of bytes in all of `chunks` together.
pub open spec fn total_len(chunks: Seq<Seq<u8>>) -> nat
    decreases chunks.len(),
{
    if chunks.len() == 0 {
        0
    } else {
        chunks.first().len() + total_len(chunks.drop_first())
    }
}

/// The first `len` bytes of the output for `message`. The output is one fixed stream of bytes
/// for each message, and a read of any length takes it from the start.
pub open spec fn digest(message: Seq<u8>, len: nat) -> Seq<u8> {
    Seq::new(len, |i: int| xof_stream(message)[i])
}

/// What `buffer` holds after output for `message` is written into it from `offset` to its end:
/// the bytes before `offset` as they were, then output counted from its start.
pub open spec fn written(buffer: Seq<u8>, offset: int, message: Seq<u8>) -> Seq<u8> {
    buffer.take(offset) + digest(message, (buffer.len() - offset) as nat)
}

} // verus!
