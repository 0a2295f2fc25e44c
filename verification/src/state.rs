use vstd::prelude::*;
use crate::error::CounterError;
use crate::wire::{lemma_u32_le_roundtrip, spec_u32_from_le, spec_u32_to_le, u32_from_le, u32_to_le};

verus! {

/// The persisted counter state: a single unsigned 32-bit integer and nothing
/// else. A value of this type is read from a 4-byte storage buffer at the
/// start of a request, transformed exactly once, and re-encoded into the same
/// layout before the request completes.
#[derive(Clone, Copy, Debug, PartialEq, Eq, Structural)]
pub struct CounterAccount {
    pub counter: u32,
}

/// What parsing a persisted state buffer yields: the little-endian integer it
/// holds when it is exactly 4 bytes long, and `MalformedState` otherwise.
pub open spec fn spec_parse_state(bytes: Seq<u8>) -> Result<CounterAccount, CounterError> {
    if bytes.len() == 4 {
        Ok(CounterAccount { counter: spec_u32_from_le(bytes) })
    } else {
        Err(CounterError::MalformedState)
    }
}

impl CounterAccount {
    /// Parse a persisted state buffer. Succeeds exactly on 4-byte buffers,
    /// reading the counter as a little-endian unsigned integer.
    pub fn try_from_le_bytes(bytes: &[u8]) -> (r: Result<CounterAccount, CounterError>)
        ensures
            r == spec_parse_state(bytes@),
    {
        if bytes.len() == 4 {
            Ok(CounterAccount { counter: u32_from_le(bytes) })
        } else {
            Err(CounterError::MalformedState)
        }
    }

    /// Re-encode the counter into the 4-byte little-endian storage layout.
    /// Parsing the result gives back this same state.
    pub fn to_le_bytes(&self) -> (r: Vec<u8>)
        ensures
            r@ == spec_u32_to_le(self.counter),
            r@.len() == 4,
            spec_parse_state(r@) == Ok::<CounterAccount, CounterError>(*self),
    {
        let out = u32_to_le(self.counter);
        proof {
            lemma_u32_le_roundtrip(self.counter, out@);
        }
        out
    }
}

} // verus!
