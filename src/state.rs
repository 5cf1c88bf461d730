use vstd::prelude::*;

use crate::error::CounterError;

verus! {

/// Number of bytes that the encoding of a [`Counter`] occupies.
pub const COUNTER_LEN: usize = 1;

/// The program's whole state: a single unsigned byte.
#[derive(Clone, Copy, Debug, PartialEq, Eq, Structural)]
pub struct Counter {
    pub value: u8,
}

/// The bytes that encode `c`: the value itself, with no framing.
pub open spec fn encode(c: Counter) -> Seq<u8> {
    seq![c.value]
}

/// The counter that a buffer of `COUNTER_LEN` bytes encodes.
pub open spec fn decode(b: Seq<u8>) -> Counter
    recommends
        b.len() == COUNTER_LEN,
{
    Counter { value: b[0] }
}

/// The counter one step further on, wrapping from 255 back to 0.
pub open spec fn incremented(c: Counter) -> Counter {
    Counter { value: ((c.value + 1) % 256) as u8 }
}

impl Counter {
    /// Writes the encoding of `self` over the destination, which must be exactly
    /// one encoding wide.
    pub fn pack_into_slice(&self, dst: &mut [u8])
        requires
            old(dst)@.len() == COUNTER_LEN,
        ensures
            final(dst)@ == encode(*self),
    {
        dst[0] = self.value;
        assert(dst@ =~= encode(*self));
    }

    /// Reads a counter from a source that is exactly one encoding wide.
    pub fn unpack_from_slice(src: &[u8]) -> (r: Result<Counter, CounterError>)
        requires
            src@.len() == COUNTER_LEN,
        ensures
            r == Ok::<Counter, CounterError>(decode(src@)),
    {
        Ok(Counter { value: src[0] })
    }

    /// Reads a counter from an untrusted buffer, rejecting any buffer whose
    /// length is not that of an encoding.
    pub fn unpack(src: &[u8]) -> (r: Result<Counter, CounterError>)
        ensures
            src@.len() == COUNTER_LEN ==> r == Ok::<Counter, CounterError>(decode(src@)),
            src@.len() != COUNTER_LEN ==> r == Err::<Counter, CounterError>(
                CounterError::DecodeFailure,
            ),
    {
        if src.len() != COUNTER_LEN {
            return Err(CounterError::DecodeFailure);
        }
        Counter::unpack_from_slice(src)
    }

    /// Whether the counter holds a nonzero value.
    pub fn is_initialized(&self) -> (r: bool)
        ensures
            r == (self.value != 0),
    {
        self.value != 0
    }

    /// Advances the counter by one, wrapping from 255 back to 0.
    pub fn increment(&mut self)
        ensures
            *final(self) == incremented(*old(self)),
    {
        self.value = self.value.wrapping_add(1);
    }
}

/// Decoding the encoding of any counter gives that counter back.
pub proof fn lemma_decode_encode(c: Counter)
    ensures
        decode(encode(c)) == c,
{
}

/// Encoding the counter that a one-byte buffer holds gives that buffer back.
pub proof fn lemma_encode_decode(b: Seq<u8>)
    requires
        b.len() == COUNTER_LEN,
    ensures
        encode(decode(b)) == b,
{
    assert(encode(decode(b)) =~= b);
}

} // verus!
