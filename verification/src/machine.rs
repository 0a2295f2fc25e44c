use vstd::prelude::*;
use crate::instruction::CounterInstructions;
use crate::state::CounterAccount;

verus! {

/// The counter transition function, as a mathematical map from the current
/// counter and an instruction to the next counter:
/// `Increment(v)` adds modulo 2^32, `Decrement(v)` subtracts but floors at
/// zero, `Update(v)` replaces, `Reset` zeroes.
pub open spec fn spec_apply(counter: u32, instruction: CounterInstructions) -> u32 {
    match instruction {
        CounterInstructions::Increment(value) => ((counter + value) % 0x1_0000_0000) as u32,
        CounterInstructions::Decrement(value) => if counter >= value {
            (counter - value) as u32
        } else {
            0u32
        },
        CounterInstructions::Update(value) => value,
        CounterInstructions::Reset => 0u32,
    }
}

/// Apply one decoded instruction to one counter state. A pure value
/// transform: it cannot fail, never panics, and has no side effects beyond
/// the returned state. Increment wraps past `u32::MAX`; Decrement never
/// underflows and never yields a value above the starting counter.
pub fn apply(state: CounterAccount, instruction: CounterInstructions) -> (r: CounterAccount)
    ensures
        r.counter == spec_apply(state.counter, instruction),
        instruction matches CounterInstructions::Increment(value) ==> r.counter == (state.counter
            + value) % 0x1_0000_0000,
        instruction matches CounterInstructions::Decrement(value) ==> r.counter == (
        if state.counter >= value {
            state.counter - value
        } else {
            0int
        }) && r.counter <= state.counter,
        instruction matches CounterInstructions::Update(value) ==> r.counter == value,
        instruction is Reset ==> r.counter == 0,
{
    match instruction {
        CounterInstructions::Increment(value) => {
            proof {
                let sum = state.counter + value;
                if sum < 0x1_0000_0000 {
                    assert(sum % 0x1_0000_0000 == sum);
                } else {
                    assert((sum - 0x1_0000_0000) % 0x1_0000_0000 == sum % 0x1_0000_0000);
                    assert((sum - 0x1_0000_0000) % 0x1_0000_0000 == sum - 0x1_0000_0000);
                }
            }
            CounterAccount { counter: state.counter.wrapping_add(value) }
        },
        CounterInstructions::Decrement(value) => {
            if state.counter >= value {
                CounterAccount { counter: state.counter - value }
            } else {
                CounterAccount { counter: 0 }
            }
        },
        CounterInstructions::Update(value) => CounterAccount { counter: value },
        CounterInstructions::Reset => CounterAccount { counter: 0 },
    }
}

} // verus!
