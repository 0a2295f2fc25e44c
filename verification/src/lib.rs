//! A minimal persistent-counter state machine.
//!
//! The library receives a binary-encoded instruction, applies it to a stored
//! 32-bit unsigned counter, and hands the result back as the same 4-byte
//! little-endian layout the counter was loaded from. The host runtime that
//! owns the storage slot and performs the actual reads and writes sits outside
//! this crate; the core here is the instruction decoder and the pure
//! transition function, both verified.

pub mod error;
pub mod instruction;
pub mod machine;
pub mod process;
pub mod state;
pub mod wire;
