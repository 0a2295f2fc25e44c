use vstd::prelude::*;
use crate::wire::spec_u32_to_le;
use crate::error::CounterError;
use crate::instruction::{spec_decode, CounterInstructions};
use crate::machine::{apply, spec_apply};
use crate::state::{spec_parse_state, CounterAccount};

verus! {

/// One full request as a mathematical map: decode the instruction buffer,
/// parse the persisted state buffer, apply the transition, and re-encode the
/// new counter into the 4-byte little-endian storage layout. A malformed
/// instruction is reported before a malformed state, matching the order in
/// which the buffers are examined.
pub open spec fn spec_process(state_bytes: Seq<u8>, instruction_bytes: Seq<u8>) -> Result<
    Seq<u8>,
    CounterError,
> {
    match spec_decode(instruction_bytes) {
        Ok(instruction) => match spec_parse_state(state_bytes) {
            Ok(account) => Ok(spec_u32_to_le(spec_apply(account.counter, instruction))),
            Err(e) => Err(e),
        },
        Err(e) => Err(e),
    }
}

/// Apply one encoded instruction to one persisted state buffer, yielding the
/// new state buffer to hand back to storage. Succeeds exactly when the
/// instruction buffer decodes and the state buffer is 4 bytes long; each
/// failure reports the error `spec_process` assigns to these buffers.
pub fn process(state_bytes: &[u8], instruction_bytes: &[u8]) -> (r: Result<Vec<u8>, CounterError>)
    ensures
        r is Ok <==> spec_process(state_bytes@, instruction_bytes@) is Ok,
        r matches Ok(out) ==> Ok::<Seq<u8>, CounterError>(out@) == spec_process(
            state_bytes@,
            instruction_bytes@,
        ),
        r matches Err(e) ==> Err::<Seq<u8>, CounterError>(e) == spec_process(
            state_bytes@,
            instruction_bytes@,
        ),
{
    let instruction = match CounterInstructions::decode(instruction_bytes) {
        Ok(instruction) => instruction,
        Err(e) => {
            return Err(e);
        },
    };
    let account = match CounterAccount::try_from_le_bytes(state_bytes) {
        Ok(account) => account,
        Err(e) => {
            return Err(e);
        },
    };
    let updated = apply(account, instruction);
    Ok(updated.to_le_bytes())
}

} // verus!
