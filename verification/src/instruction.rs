use vstd::prelude::*;
use vstd::slice::slice_subrange;
use crate::error::CounterError;
use crate::wire::{lemma_u32_le_roundtrip, spec_u32_from_le, spec_u32_to_le, u32_from_le, u32_to_le};

verus! {

/// A decoded request to mutate the counter. Exactly one variant is active at
/// a time; on the wire the variant is selected by the first byte of the
/// encoding (the tag), and the three variants that carry a value follow the
/// tag with a 4-byte little-endian operand.
#[derive(Clone, Copy, Debug, PartialEq, Eq, Structural)]
pub enum CounterInstructions {
    /// Tag 0: add the operand to the counter, wrapping past `u32::MAX`.
    Increment(u32),
    /// Tag 1: subtract the operand from the counter, flooring at zero.
    Decrement(u32),
    /// Tag 2: replace the counter with the operand.
    Update(u32),
    /// Tag 3, no operand: set the counter to zero.
    Reset,
}

/// The wire encoding of an instruction: the variant's tag byte, followed by
/// its operand as 4 little-endian bytes where the variant has one.
pub open spec fn spec_encode(instruction: CounterInstructions) -> Seq<u8> {
    match instruction {
        CounterInstructions::Increment(value) => seq![0u8] + spec_u32_to_le(value),
        CounterInstructions::Decrement(value) => seq![1u8] + spec_u32_to_le(value),
        CounterInstructions::Update(value) => seq![2u8] + spec_u32_to_le(value),
        CounterInstructions::Reset => seq![3u8],
    }
}

/// What decoding a byte buffer yields. Decoding fails with
/// `MalformedInstruction` exactly when the buffer is empty, the tag byte is
/// not one of 0 through 3, or a variant that requires an operand has fewer
/// than 4 bytes after the tag; bytes beyond what the variant needs are
/// ignored.
pub open spec fn spec_decode(bytes: Seq<u8>) -> Result<CounterInstructions, CounterError> {
    if bytes.len() == 0 {
        Err(CounterError::MalformedInstruction)
    } else if bytes[0] == 3 {
        Ok(CounterInstructions::Reset)
    } else if bytes[0] <= 2 {
        if bytes.len() < 5 {
            Err(CounterError::MalformedInstruction)
        } else {
            let value = spec_u32_from_le(bytes.subrange(1, 5));
            if bytes[0] == 0 {
                Ok(CounterInstructions::Increment(value))
            } else if bytes[0] == 1 {
                Ok(CounterInstructions::Decrement(value))
            } else {
                Ok(CounterInstructions::Update(value))
            }
        }
    } else {
        Err(CounterError::MalformedInstruction)
    }
}

impl CounterInstructions {
    /// Parse an instruction buffer into its typed form. Total and pure:
    /// succeeds or fails exactly as `spec_decode` says, for every buffer.
    pub fn decode(bytes: &[u8]) -> (r: Result<CounterInstructions, CounterError>)
        ensures
            r == spec_decode(bytes@),
    {
        if bytes.len() == 0 {
            return Err(CounterError::MalformedInstruction);
        }
        let tag: u8 = bytes[0];
        if tag == 3 {
            Ok(CounterInstructions::Reset)
        } else if tag <= 2 {
            if bytes.len() < 5 {
                Err(CounterError::MalformedInstruction)
            } else {
                let operand: u32 = u32_from_le(slice_subrange(bytes, 1, 5));
                if tag == 0 {
                    Ok(CounterInstructions::Increment(operand))
                } else if tag == 1 {
                    Ok(CounterInstructions::Decrement(operand))
                } else {
                    Ok(CounterInstructions::Update(operand))
                }
            }
        } else {
            Err(CounterError::MalformedInstruction)
        }
    }

    /// Produce the wire form of this instruction: tag byte first, then the
    /// operand in little-endian order where the variant carries one.
    pub fn encode(&self) -> (r: Vec<u8>)
        ensures
            r@ == spec_encode(*self),
    {
        let mut out: Vec<u8> = Vec::new();
        match *self {
            CounterInstructions::Increment(value) => {
                out.push(0u8);
                let mut operand: Vec<u8> = u32_to_le(value);
                out.append(&mut operand);
            }
            CounterInstructions::Decrement(value) => {
                out.push(1u8);
                let mut operand: Vec<u8> = u32_to_le(value);
                out.append(&mut operand);
            }
            CounterInstructions::Update(value) => {
                out.push(2u8);
                let mut operand: Vec<u8> = u32_to_le(value);
                out.append(&mut operand);
            }
            CounterInstructions::Reset => {
                out.push(3u8);
            }
        }
        proof {
            assert(out@ =~= spec_encode(*self));
        }
        out
    }
}

/// Law: the wire format is faithful. Decoding the encoding of any
/// constructible instruction gives back exactly that instruction.
pub proof fn lemma_encode_decode_roundtrip(instruction: CounterInstructions)
    ensures
        spec_decode(spec_encode(instruction)) == Ok::<CounterInstructions, CounterError>(
            instruction,
        ),
{
    let bytes = spec_encode(instruction);
    match instruction {
        CounterInstructions::Increment(value) => {
            lemma_u32_le_roundtrip(value, spec_u32_to_le(value));
            assert(bytes.subrange(1, 5) =~= spec_u32_to_le(value));
        }
        CounterInstructions::Decrement(value) => {
            lemma_u32_le_roundtrip(value, spec_u32_to_le(value));
            assert(bytes.subrange(1, 5) =~= spec_u32_to_le(value));
        }
        CounterInstructions::Update(value) => {
            lemma_u32_le_roundtrip(value, spec_u32_to_le(value));
            assert(bytes.subrange(1, 5) =~= spec_u32_to_le(value));
        }
        CounterInstructions::Reset => {
        }
    }
}

} // verus!
