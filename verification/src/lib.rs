//! An incremental BLAKE3 hash with extendable output, driven through plain byte buffers.
//!
//! A [`Stream`] absorbs a message in chunks of any size and, at any point and any number of
//! times, writes output of any length into a caller's buffer from a given offset. Reading does
//! not disturb the stream, and every read starts at the beginning of the output: a caller who
//! wants more output asks for a longer read, of which the shorter one is a prefix.
//!
//! The hash function is the `blake3` crate's. What is assumed of it is in [`hasher`]; the model
//! that the contracts speak of is in [`model`]; the laws that follow from the model are in
//! [`laws`].

use vstd::prelude::*;

pub mod hasher;
pub mod laws;
pub mod model;

use crate::hasher::{
    hasher_count, hasher_finalize_xof, hasher_message, hasher_new, hasher_regular, hasher_reset,
    hasher_update, reader_fill,
};
use crate::model::{absorb, byte_count, cleared, digest, fresh, written};

verus! {

/// A hash state that has absorbed some message. Its view is that message.
///
/// A stream has one owner and is never copied: it is changed in place through `&mut`.
pub struct Stream {
    hasher: blake3::Hasher,
}

impl View for Stream {
    type V = Seq<u8>;

    closed spec fn view(&self) -> Seq<u8> {
        hasher_message(self.hasher)
    }
}

impl Stream {
    /// The hasher is one for the regular hash function, and its byte counter has not
    /// overflowed.
    #[verifier::type_invariant]
    spec fn well_formed(self) -> bool {
        &&& hasher_regular(self.hasher)
        &&& hasher_message(self.hasher).len() <= u64::MAX
    }
}

/// Makes a stream that has absorbed nothing.
pub fn create() -> (stream: Stream)
    ensures
        stream@ == fresh(),
{
    Stream { hasher: hasher_new() }
}

/// Absorbs `source` behind what the stream already holds. An empty `source` changes nothing.
///
/// A stream counts its bytes in a `u64`, so the total may not exceed `u64::MAX`.
pub fn write(stream: &mut Stream, source: &[u8])
    requires
        byte_count(old(stream)@) + source.len() <= u64::MAX,
    ensures
        final(stream)@ == absorb(old(stream)@, source@),
{
    proof {
        use_type_invariant(&*stream);
    }
    hasher_update(&mut stream.hasher, source);
}

/// Writes output for the absorbed message into `target[offset..]`, counted from the start of
/// the output, and leaves `target[..offset]` and the stream as they were.
pub fn read_hash_into(stream: &mut Stream, target: &mut [u8], offset: usize)
    requires
        offset <= old(target)@.len(),
    ensures
        *final(stream) == *old(stream),
        final(target)@ == written(old(target)@, offset as int, old(stream)@),
{
    proof {
        use_type_invariant(&*stream);
    }
    fill_from(&stream.hasher, target, offset);
}

/// Returns the first `output_length` bytes of output for the absorbed message.
pub fn extract(stream: &Stream, output_length: usize) -> (bytes: Vec<u8>)
    ensures
        bytes@ == digest(stream@, output_length as nat),
{
    proof {
        use_type_invariant(stream);
    }
    let mut bytes: Vec<u8> = vec![0u8; output_length];
    fill_from(&stream.hasher, bytes.as_mut_slice(), 0);
    bytes
}

/// Returns the number of bytes absorbed since the stream was made or last reset, and leaves
/// the stream as it was.
pub fn count(stream: &mut Stream) -> (total: u64)
    ensures
        total == byte_count(old(stream)@),
        *final(stream) == *old(stream),
{
    proof {
        use_type_invariant(&*stream);
    }
    hasher_count(&stream.hasher)
}

/// Returns the stream to the state it was made in, whatever it held.
pub fn reset(stream: &mut Stream)
    ensures
        final(stream)@ == cleared(old(stream)@),
{
    proof {
        use_type_invariant(&*stream);
    }
    hasher_reset(&mut stream.hasher);
}

/// Writes output for the message `input` into `output[offset..]`, counted from the start of
/// the output, and leaves `output[..offset]` as it was. No stream is needed.
pub fn hash_into(input: &[u8], output: &mut [u8], offset: usize)
    requires
        offset <= old(output)@.len(),
    ensures
        final(output)@ == written(old(output)@, offset as int, input@),
{
    let mut hasher = hasher_new();
    hasher_update(&mut hasher, input);
    fill_from(&hasher, output, offset);
}

/// Returns the first `output_length` bytes of output for the message `input`.
pub fn hash_oneshot(input: &[u8], output_length: usize) -> (bytes: Vec<u8>)
    ensures
        bytes@ == digest(input@, output_length as nat),
{
    let mut bytes: Vec<u8> = vec![0u8; output_length];
    hash_into(input, bytes.as_mut_slice(), 0);
    bytes
}

/// Writes output for the message that `hasher` has absorbed into `target[offset..]`: a reader
/// is made anew, so the output is counted from its start, and only the part of the buffer
/// from `offset` on is handed to it.
fn fill_from(hasher: &blake3::Hasher, target: &mut [u8], offset: usize)
    requires
        hasher_regular(*hasher),
        offset <= old(target)@.len(),
    ensures
        final(target)@ == written(old(target)@, offset as int, hasher_message(*hasher)),
{
    let mut reader = hasher_finalize_xof(hasher);
    let (_head, tail) = target.split_at_mut(offset);
    assert(tail.len() <= usize::MAX);
    reader_fill(&mut reader, tail);
    assert(final(target)@ =~= written(old(target)@, offset as int, hasher_message(*hasher)));
}

} // verus!
