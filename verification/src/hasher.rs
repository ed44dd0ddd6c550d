//! What this crate takes on trust about the `blake3` crate.
//!
//! BLAKE3 itself is not verified here. A hasher is described by the message it has absorbed, an
//! output reader by the bytes it has yet to give, and the hash function by the output that it
//! assigns to each message. Every contract in this file is an assumption about `blake3`, made
//! from its source and documentation; the rest of the crate is proved from them. Each function
//! here makes one call into `blake3` and nothing else, and no other file calls into it.

use vstd::prelude::*;

verus! {

#[verifier::external_type_specification]
#[verifier::external_body]
pub struct ExHasher(blake3::Hasher);

#[verifier::external_type_specification]
#[verifier::external_body]
pub struct ExOutputReader(blake3::OutputReader);

/// The bytes a hasher has absorbed since it was made or last reset, in the order they came.
/// The hasher keeps no copy of them, only the hash state that they led to: this names what it
/// was given, which is what its count and its output are functions of.
pub uninterp spec fn hasher_message(hasher: blake3::Hasher) -> Seq<u8>;

/// Whether a hasher computes the regular hash function, as one made by `Hasher::new` does:
/// it has no key, no key-derivation context, and no input offset.
pub uninterp spec fn hasher_regular(hasher: blake3::Hasher) -> bool;

/// The extendable output that the regular BLAKE3 hash function assigns to `message`, from its
/// first byte to the last that BLAKE3 defines.
pub uninterp spec fn xof_stream(message: Seq<u8>) -> Seq<u8>;

/// The output bytes that a reader has yet to give, the next one first.
pub uninterp spec fn reader_pending(reader: blake3::OutputReader) -> Seq<u8>;

/// `Hasher::new` makes a hasher for the regular hash function that has absorbed nothing.
#[verifier::external_body]
pub(crate) fn hasher_new() -> (hasher: blake3::Hasher)
    ensures
        hasher_regular(hasher),
        hasher_message(hasher) == Seq::<u8>::empty(),
{
    blake3::Hasher::new()
}

/// `Hasher::update` appends `input` to the absorbed message and keeps the hasher's mode. The
/// hasher counts in a `u64`, so a total beyond `u64::MAX` is left out, as is a hasher with an
/// input offset, which panics on more input than its subtree takes. On what remains it does
/// not panic.
#[verifier::external_body]
pub(crate) fn hasher_update(hasher: &mut blake3::Hasher, input: &[u8])
    requires
        hasher_regular(*old(hasher)),
        hasher_message(*old(hasher)).len() + input.len() <= u64::MAX,
    ensures
        hasher_regular(*final(hasher)),
        hasher_message(*final(hasher)) == hasher_message(*old(hasher)) + input@,
    no_unwind
{
    hasher.update(input);
}

/// `Hasher::reset` returns a hasher for the regular hash function to the state that
/// `Hasher::new` makes: nothing absorbed, the mode kept. It does not panic. A hasher with an
/// input offset is left out: a reset keeps the offset but not the chunk counter that was set
/// with it, so it does not come back to the state it was made in.
#[verifier::external_body]
pub(crate) fn hasher_reset(hasher: &mut blake3::Hasher)
    requires
        hasher_regular(*old(hasher)),
    ensures
        hasher_regular(*final(hasher)),
        hasher_message(*final(hasher)) == Seq::<u8>::empty(),
    no_unwind
{
    hasher.reset();
}

/// `Hasher::count` returns how many bytes the hasher has absorbed. It computes the total in a
/// `u64`, so a total beyond `u64::MAX` is left out. It takes the total from the chunk counter
/// less the input offset, so a hasher with an input offset is left out too: after a reset its
/// chunk counter lies below its offset.
#[verifier::external_body]
pub(crate) fn hasher_count(hasher: &blake3::Hasher) -> (total: u64)
    requires
        hasher_regular(*hasher),
        hasher_message(*hasher).len() <= u64::MAX,
    ensures
        total == hasher_message(*hasher).len(),
{
    hasher.count()
}

/// `Hasher::finalize_xof` leaves the hasher as it is and returns a reader placed at the start
/// of the output for the absorbed message, of which BLAKE3 defines `2^64 - 1` bytes. A hasher
/// with an input offset makes it panic, and one with a key reads another output: both are left
/// out.
#[verifier::external_body]
pub(crate) fn hasher_finalize_xof(hasher: &blake3::Hasher) -> (reader: blake3::OutputReader)
    requires
        hasher_regular(*hasher),
    ensures
        reader_pending(reader) == xof_stream(hasher_message(*hasher)),
        reader_pending(reader).len() == u64::MAX,
{
    hasher.finalize_xof()
}

/// `OutputReader::fill` overwrites the whole buffer with the next output bytes and moves the
/// reader past them. What a read beyond the last defined byte gives is unspecified, and is
/// left out.
#[verifier::external_body]
pub(crate) fn reader_fill(reader: &mut blake3::OutputReader, buf: &mut [u8])
    requires
        old(buf)@.len() <= reader_pending(*old(reader)).len(),
    ensures
        final(buf)@ == reader_pending(*old(reader)).take(old(buf)@.len() as int),
        reader_pending(*final(reader)) == reader_pending(*old(reader)).skip(
            old(buf)@.len() as int,
        ),
{
    reader.fill(buf);
}

} // verus!
