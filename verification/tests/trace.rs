use solana_rows::block::Instruction;
use solana_rows::trace::{flatten_trace, InnerInstructions};

fn instruction(tag: u8, stack_height: u32) -> Instruction {
    Instruction { program_id_index: tag as u32, accounts: vec![], data: vec![tag], stack_height }
}

fn tags(trace: &[&Instruction]) -> Vec<u8> {
    trace.iter().map(|i| i.data[0]).collect()
}

#[test]
fn inner_instructions_follow_their_top_level_instruction() {
    let top_level = vec![instruction(10, 1), instruction(20, 1), instruction(30, 1)];
    let groups = vec![
        InnerInstructions { index: 0, instructions: vec![instruction(11, 2), instruction(12, 3)] },
        InnerInstructions { index: 2, instructions: vec![instruction(31, 2)] },
    ];
    let trace = flatten_trace(&top_level, &groups);
    assert_eq!(tags(&trace), vec![10, 11, 12, 20, 30, 31]);
    let heights: Vec<u32> = trace.iter().map(|i| i.stack_height).collect();
    assert_eq!(heights, vec![1, 2, 3, 1, 1, 2]);
    assert!(std::ptr::eq(trace[1], &groups[0].instructions[0]));
}

#[test]
fn groups_are_taken_in_their_order_wherever_they_stand() {
    let top_level = vec![instruction(10, 1), instruction(20, 1)];
    let groups = vec![
        InnerInstructions { index: 1, instructions: vec![instruction(21, 2)] },
        InnerInstructions { index: 0, instructions: vec![instruction(11, 2)] },
        InnerInstructions { index: 9, instructions: vec![instruction(91, 2)] },
        InnerInstructions { index: 1, instructions: vec![] },
        InnerInstructions { index: 1, instructions: vec![instruction(22, 2), instruction(23, 2)] },
    ];
    assert_eq!(tags(&flatten_trace(&top_level, &groups)), vec![10, 11, 20, 21, 22, 23]);
}

#[test]
fn trace_without_inner_instructions_is_the_top_level_list() {
    let top_level = vec![instruction(1, 1), instruction(2, 1)];
    assert_eq!(tags(&flatten_trace(&top_level, &vec![])), vec![1, 2]);
    let groups = vec![InnerInstructions { index: 0, instructions: vec![instruction(3, 2)] }];
    assert!(flatten_trace(&vec![], &groups).is_empty());
}
