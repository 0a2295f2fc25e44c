use counter_machine::error::CounterError;
use counter_machine::instruction::CounterInstructions;
use counter_machine::machine::apply;
use counter_machine::process::process;
use counter_machine::state::CounterAccount;
use counter_machine::wire::{u32_from_le, u32_to_le};

fn state_counter(bytes: &[u8]) -> u32 {
    CounterAccount::try_from_le_bytes(bytes).unwrap().counter
}

#[test]
fn test_counter() {
    let mut data = vec![0u8; 4];

    let mut increment_instruction_data = vec![0u8];
    let mut decrement_instruction_data = vec![1u8];
    let mut decrement_instruction_data_gt_current_value = vec![1u8];
    let mut update_instruction_data = vec![2u8];
    let reset_instruction_data = vec![3u8];

    let parsed_increment_value: u32 = "20".parse().expect("Failed to parse the string into a u32");
    increment_instruction_data.extend_from_slice(&parsed_increment_value.to_le_bytes());
    data = process(&data, &increment_instruction_data).unwrap();
    assert_eq!(state_counter(&data), 20);

    let parsed_decrement_value: u32 = "10".parse().expect("Failed to parse the string into a u32");
    decrement_instruction_data.extend_from_slice(&parsed_decrement_value.to_le_bytes());
    data = process(&data, &decrement_instruction_data).unwrap();
    assert_eq!(state_counter(&data), 10);

    let parsed_decrement_value_gt_current_value: u32 =
        "30".parse().expect("Failed to parse the string into a u32");
    decrement_instruction_data_gt_current_value
        .extend_from_slice(&parsed_decrement_value_gt_current_value.to_le_bytes());
    data = process(&data, &decrement_instruction_data_gt_current_value).unwrap();
    assert_eq!(state_counter(&data), 0);

    let update_value = 33u32;
    update_instruction_data.extend_from_slice(&update_value.to_le_bytes());
    data = process(&data, &update_instruction_data).unwrap();
    assert_eq!(state_counter(&data), 33);

    data = process(&data, &reset_instruction_data).unwrap();
    assert_eq!(state_counter(&data), 0);
}

#[test]
fn increment_adds_modulo_two_pow_32() {
    let next = apply(CounterAccount { counter: 5 }, CounterInstructions::Increment(7));
    assert_eq!(next.counter, 12);
    let wrapped = apply(CounterAccount { counter: u32::MAX }, CounterInstructions::Increment(1));
    assert_eq!(wrapped.counter, 0);
    let wrapped_far =
        apply(CounterAccount { counter: u32::MAX }, CounterInstructions::Increment(10));
    assert_eq!(wrapped_far.counter, 9);
}

#[test]
fn decrement_floors_at_zero() {
    let exact = apply(CounterAccount { counter: 30 }, CounterInstructions::Decrement(30));
    assert_eq!(exact.counter, 0);
    let partial = apply(CounterAccount { counter: 30 }, CounterInstructions::Decrement(12));
    assert_eq!(partial.counter, 18);
    let floored = apply(CounterAccount { counter: 3 }, CounterInstructions::Decrement(u32::MAX));
    assert_eq!(floored.counter, 0);
    assert!(floored.counter <= 3);
}

#[test]
fn update_replaces_unconditionally() {
    let next = apply(CounterAccount { counter: 7 }, CounterInstructions::Update(33));
    assert_eq!(next.counter, 33);
    let zeroed = apply(CounterAccount { counter: u32::MAX }, CounterInstructions::Update(0));
    assert_eq!(zeroed.counter, 0);
}

#[test]
fn reset_zeroes() {
    let next = apply(CounterAccount { counter: 12345 }, CounterInstructions::Reset);
    assert_eq!(next.counter, 0);
    let already = apply(CounterAccount { counter: 0 }, CounterInstructions::Reset);
    assert_eq!(already.counter, 0);
}

#[test]
fn encode_produces_exact_wire_bytes() {
    assert_eq!(CounterInstructions::Increment(0x01020304).encode(), vec![0, 4, 3, 2, 1]);
    assert_eq!(CounterInstructions::Decrement(20).encode(), vec![1, 20, 0, 0, 0]);
    assert_eq!(CounterInstructions::Update(u32::MAX).encode(), vec![2, 255, 255, 255, 255]);
    assert_eq!(CounterInstructions::Reset.encode(), vec![3]);
}

#[test]
fn decode_reads_exact_wire_bytes() {
    assert_eq!(
        CounterInstructions::decode(&[0, 4, 3, 2, 1]),
        Ok(CounterInstructions::Increment(0x01020304))
    );
    assert_eq!(
        CounterInstructions::decode(&[1, 20, 0, 0, 0]),
        Ok(CounterInstructions::Decrement(20))
    );
    assert_eq!(
        CounterInstructions::decode(&[2, 255, 255, 255, 255]),
        Ok(CounterInstructions::Update(u32::MAX))
    );
    assert_eq!(CounterInstructions::decode(&[3]), Ok(CounterInstructions::Reset));
    // Bytes past what the variant needs are ignored.
    assert_eq!(CounterInstructions::decode(&[3, 9, 9]), Ok(CounterInstructions::Reset));
    assert_eq!(
        CounterInstructions::decode(&[0, 1, 0, 0, 0, 77]),
        Ok(CounterInstructions::Increment(1))
    );
}

#[test]
fn decode_encode_roundtrip() {
    let instructions = [
        CounterInstructions::Increment(0),
        CounterInstructions::Increment(u32::MAX),
        CounterInstructions::Decrement(1),
        CounterInstructions::Update(0xDEAD_BEEF),
        CounterInstructions::Reset,
    ];
    for instruction in instructions {
        assert_eq!(CounterInstructions::decode(&instruction.encode()), Ok(instruction));
    }
}

#[test]
fn decode_rejects_malformed_buffers() {
    assert_eq!(CounterInstructions::decode(&[]), Err(CounterError::MalformedInstruction));
    assert_eq!(
        CounterInstructions::decode(&[4, 0, 0, 0, 0]),
        Err(CounterError::MalformedInstruction)
    );
    assert_eq!(CounterInstructions::decode(&[255]), Err(CounterError::MalformedInstruction));
    assert_eq!(CounterInstructions::decode(&[0]), Err(CounterError::MalformedInstruction));
    assert_eq!(CounterInstructions::decode(&[0, 1, 2]), Err(CounterError::MalformedInstruction));
    assert_eq!(CounterInstructions::decode(&[1, 1, 2, 3]), Err(CounterError::MalformedInstruction));
    assert_eq!(CounterInstructions::decode(&[2, 0, 0, 0]), Err(CounterError::MalformedInstruction));
}

#[test]
fn state_buffer_roundtrip_and_rejection() {
    let account = CounterAccount { counter: 0x01020304 };
    let bytes = account.to_le_bytes();
    assert_eq!(bytes, vec![4, 3, 2, 1]);
    assert_eq!(CounterAccount::try_from_le_bytes(&bytes), Ok(account));
    assert_eq!(CounterAccount::try_from_le_bytes(&[]), Err(CounterError::MalformedState));
    assert_eq!(CounterAccount::try_from_le_bytes(&[1, 2, 3]), Err(CounterError::MalformedState));
    assert_eq!(
        CounterAccount::try_from_le_bytes(&[1, 2, 3, 4, 5]),
        Err(CounterError::MalformedState)
    );
}

#[test]
fn wire_codec_exact_values() {
    assert_eq!(u32_to_le(0x01020304), vec![4, 3, 2, 1]);
    assert_eq!(u32_to_le(0), vec![0, 0, 0, 0]);
    assert_eq!(u32_to_le(u32::MAX), vec![255, 255, 255, 255]);
    assert_eq!(u32_from_le(&[4, 3, 2, 1]), 0x01020304);
    assert_eq!(u32_from_le(&[255, 255, 255, 255]), u32::MAX);
}

#[test]
fn process_reports_each_error() {
    let good_state = [7, 0, 0, 0];
    let good_instruction = [0, 1, 0, 0, 0];
    assert_eq!(process(&good_state, &good_instruction), Ok(vec![8, 0, 0, 0]));
    assert_eq!(process(&good_state, &[9]), Err(CounterError::MalformedInstruction));
    assert_eq!(process(&[7, 0, 0], &good_instruction), Err(CounterError::MalformedState));
    // A malformed instruction is reported before a malformed state.
    assert_eq!(process(&[7, 0, 0], &[9]), Err(CounterError::MalformedInstruction));
}
