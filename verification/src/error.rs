use vstd::prelude::*;

verus! {

/// The two failure kinds the counter core can report. Both are unrecoverable
/// at this layer: the core aborts the request and returns the error to its
/// caller unchanged.
#[derive(Clone, Copy, Debug, PartialEq, Eq, Structural)]
pub enum CounterError {
    /// The instruction buffer is empty, starts with an unknown tag byte, or
    /// is missing part of a required operand.
    MalformedInstruction,
    /// The persisted state buffer cannot be parsed as a 4-byte unsigned
    /// little-endian integer.
    MalformedState,
}

} // verus!
