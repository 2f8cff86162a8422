use solana_rows::block::{Instruction, Transaction, TransactionMeta};
use solana_rows::error::BadInput;
use solana_rows::instruction::{
    get_indexed_instructions, IndexedInstruction, IndexedInstructions, InstructionForest,
};
use solana_rows::pubkey::Pubkey;

fn key(n: u8) -> Vec<u8> {
    vec![n; 32]
}

fn trace(heights: &[u32]) -> Transaction {
    Transaction {
        signatures: vec![vec![1; 64]],
        account_keys: vec![key(1), key(2), key(3)],
        num_required_signatures: 1,
        meta: Some(TransactionMeta {
            err: None,
            loaded_writable_addresses: vec![key(4)],
            loaded_readonly_addresses: vec![key(5)],
            pre_token_balances: vec![],
            post_token_balances: vec![],
        }),
        instructions: heights
            .iter()
            .enumerate()
            .map(|(i, h)| Instruction {
                program_id_index: (i % 5) as u32,
                accounts: vec![0, (i % 5) as u8],
                data: vec![i as u8],
                stack_height: *h,
            })
            .collect(),
    }
}

fn parents(forest: &InstructionForest) -> Vec<Option<usize>> {
    forest.nodes.iter().map(|n| n.parent_instruction()).collect()
}

fn children(forest: &InstructionForest) -> Vec<Vec<usize>> {
    forest.nodes.iter().map(|n| n.inner_instructions().clone()).collect()
}

fn tops(forest: &InstructionForest) -> Vec<Option<usize>> {
    forest.nodes.iter().map(|n| n.top_instruction(forest)).collect()
}

/// The parent of every instruction, found the slow way.
fn expected_parents(heights: &[u32]) -> Vec<Option<usize>> {
    (0..heights.len()).map(|i| (0..i).rev().find(|j| heights[*j] < heights[i])).collect()
}

#[test]
fn empty_trace_gives_an_empty_forest() {
    let tx = trace(&[]);
    let forest = get_indexed_instructions(&tx).unwrap();
    assert!(forest.nodes.is_empty());
    assert!(forest.roots.is_empty());
    assert!(forest.flattened().is_empty());
}

#[test]
fn top_level_instructions_are_roots() {
    let tx = trace(&[1, 1, 1]);
    let forest = get_indexed_instructions(&tx).unwrap();
    assert_eq!(forest.roots, vec![0, 1, 2]);
    assert_eq!(parents(&forest), vec![None, None, None]);
    assert_eq!(children(&forest), vec![vec![], vec![], vec![]]);
    assert_eq!(tops(&forest), vec![None, None, None]);
}

#[test]
fn nested_trace_is_rebuilt() {
    //        0        7
    //      / | \      |
    //     1  4  6     8
    //    / \  \
    //   2   3  5
    let tx = trace(&[1, 2, 3, 3, 2, 3, 2, 1, 2]);
    let forest = get_indexed_instructions(&tx).unwrap();
    assert_eq!(forest.roots, vec![0, 7]);
    assert_eq!(
        parents(&forest),
        vec![None, Some(0), Some(1), Some(1), Some(0), Some(4), Some(0), None, Some(7)]
    );
    assert_eq!(
        children(&forest),
        vec![vec![1, 4, 6], vec![2, 3], vec![], vec![], vec![5], vec![], vec![], vec![8], vec![]]
    );
    assert_eq!(
        tops(&forest),
        vec![None, Some(0), Some(0), Some(0), Some(0), Some(0), Some(0), None, Some(7)]
    );
    assert_eq!(forest.flattened(), (0..9).collect::<Vec<usize>>());
}

#[test]
fn four_levels_deep() {
    let tx = trace(&[1, 2, 3, 4]);
    let forest = get_indexed_instructions(&tx).unwrap();
    assert_eq!(forest.roots, vec![0]);
    assert_eq!(parents(&forest), vec![None, Some(0), Some(1), Some(2)]);
    assert_eq!(tops(&forest), vec![None, Some(0), Some(0), Some(0)]);
    assert_eq!(forest.flattened(), vec![0, 1, 2, 3]);
}

#[test]
fn flat_indices_are_dense_and_in_trace_order() {
    let tx = trace(&[1, 2, 2, 1, 2, 3, 1]);
    let forest = get_indexed_instructions(&tx).unwrap();
    let indices: Vec<i32> = forest.nodes.iter().map(|n| n.index).collect();
    assert_eq!(indices, vec![0, 1, 2, 3, 4, 5, 6]);
    for (i, node) in forest.nodes.iter().enumerate() {
        assert_eq!(node.instruction, &tx.instructions[i]);
        assert_eq!(node.data(), &vec![i as u8]);
        assert_eq!(node.stack_height(), Some(tx.instructions[i].stack_height));
        assert_eq!(node.program_id_index(), (i % 5) as u32);
    }
}

#[test]
fn children_are_one_level_deeper_where_no_level_is_skipped() {
    let heights = [1, 2, 3, 2, 3, 4, 1, 2, 2, 3];
    let tx = trace(&heights);
    let forest = get_indexed_instructions(&tx).unwrap();
    for node in &forest.nodes {
        match node.parent_instruction() {
            Some(parent) => assert_eq!(
                node.stack_height().unwrap(),
                forest.nodes[parent].stack_height().unwrap() + 1
            ),
            None => assert_eq!(node.stack_height(), Some(1)),
        }
        let inner = node.inner_instructions();
        assert!(inner.windows(2).all(|pair| pair[0] < pair[1]));
        assert!(inner.iter().all(|c| forest.nodes[*c].parent_instruction() == Some(node.index as usize)));
    }
}

#[test]
fn skipped_level_hangs_under_the_nearest_shallower_instruction() {
    let tx = trace(&[1, 3, 2, 5, 1]);
    let forest = get_indexed_instructions(&tx).unwrap();
    assert_eq!(parents(&forest), vec![None, Some(0), Some(0), Some(2), None]);
    assert_eq!(children(&forest), vec![vec![1, 2], vec![], vec![3], vec![], vec![]]);
    assert_eq!(forest.roots, vec![0, 4]);
    assert_eq!(forest.flattened(), vec![0, 1, 2, 3, 4]);
}

#[test]
fn trace_that_starts_deep_has_a_deep_root() {
    let tx = trace(&[3, 4, 2, 1]);
    let forest = get_indexed_instructions(&tx).unwrap();
    assert_eq!(forest.roots, vec![0, 2, 3]);
    assert_eq!(parents(&forest), vec![None, Some(0), None, None]);
}

#[test]
fn parents_are_the_nearest_shallower_instructions() {
    let traces: [&[u32]; 6] = [
        &[1],
        &[1, 2, 2, 2, 1, 2],
        &[1, 2, 3, 4, 5, 4, 3, 2, 1],
        &[2, 2, 1, 7, 7, 3, 9, 1],
        &[5, 4, 3, 2, 1],
        &[1, 2, 1, 2, 3, 1, 2, 3, 4, 2, 3, 1],
    ];
    for heights in traces {
        let tx = trace(heights);
        let forest = get_indexed_instructions(&tx).unwrap();
        assert_eq!(parents(&forest), expected_parents(heights));
        assert_eq!(forest.flattened(), (0..heights.len()).collect::<Vec<usize>>());
        for (i, top) in tops(&forest).into_iter().enumerate() {
            let mut walk = i;
            while let Some(parent) = forest.nodes[walk].parent_instruction() {
                walk = parent;
            }
            assert_eq!(top, if walk == i { None } else { Some(walk) });
        }
    }
}

#[test]
fn programs_and_accounts_are_resolved_against_the_whole_table() {
    let tx = trace(&[1, 2, 3, 4, 5]);
    let forest = get_indexed_instructions(&tx).unwrap();
    for (i, node) in forest.nodes.iter().enumerate() {
        let expected = Pubkey::new([i as u8 + 1; 32]);
        assert_eq!(node.program_id(), expected);
        assert_eq!(node.accounts(), &vec![Pubkey::new([1; 32]), expected]);
    }
}

#[test]
fn zero_stack_height_is_refused() {
    assert_eq!(get_indexed_instructions(&trace(&[0])).unwrap_err(), BadInput::ZeroStackHeight);
    assert_eq!(
        get_indexed_instructions(&trace(&[1, 2, 0, 1])).unwrap_err(),
        BadInput::ZeroStackHeight
    );
}

#[test]
fn trace_without_meta_is_refused() {
    let mut tx = trace(&[1]);
    tx.meta = None;
    assert_eq!(get_indexed_instructions(&tx).unwrap_err(), BadInput::MissingMeta);
}

#[test]
fn accounts_outside_the_table_are_refused() {
    let mut tx = trace(&[1, 2]);
    tx.instructions[1].program_id_index = 5;
    assert_eq!(get_indexed_instructions(&tx).unwrap_err(), BadInput::InconsistentAccounts);

    let mut tx = trace(&[1, 2]);
    tx.instructions[0].accounts = vec![4, 5];
    assert_eq!(get_indexed_instructions(&tx).unwrap_err(), BadInput::InconsistentAccounts);

    let mut tx = trace(&[1, 2]);
    tx.instructions[0].accounts = vec![4];
    assert!(get_indexed_instructions(&tx).is_ok());
}

#[test]
fn addresses_of_the_wrong_length_are_refused() {
    let mut tx = trace(&[1]);
    tx.account_keys[2] = vec![3; 31];
    assert_eq!(get_indexed_instructions(&tx).unwrap_err(), BadInput::InconsistentAccounts);

    let mut tx = trace(&[]);
    tx.meta.as_mut().unwrap().loaded_writable_addresses[0] = vec![3; 33];
    assert_eq!(get_indexed_instructions(&tx).unwrap_err(), BadInput::InconsistentAccounts);
}

#[test]
fn new_node_has_no_parent_and_no_children() {
    let raw = Instruction { program_id_index: 2, accounts: vec![1], data: vec![9, 9], stack_height: 1 };
    let node = IndexedInstruction::new(&raw, Pubkey::new([3; 32]), vec![Pubkey::new([2; 32])], 5);
    assert_eq!(node.index, 5);
    assert_eq!(node.parent_instruction(), None);
    assert!(node.inner_instructions().is_empty());
    assert_eq!(node.program_id(), Pubkey::new([3; 32]));
    assert_eq!(node.program_id_index(), 2);
    assert_eq!(node.accounts(), &vec![Pubkey::new([2; 32])]);
    assert_eq!(node.data(), &vec![9, 9]);
    assert_eq!(node.stack_height(), Some(1));
}

#[test]
fn many_traces_agree_with_the_slow_definition() {
    let mut state: u64 = 0x2545_f491_4f6c_dd1d;
    let mut next = |bound: u32| -> u32 {
        state ^= state << 13;
        state ^= state >> 7;
        state ^= state << 17;
        (state % bound as u64) as u32
    };
    for round in 0..300 {
        let length = next(40) as usize;
        let mut heights: Vec<u32> = Vec::new();
        for _ in 0..length {
            let previous = heights.last().copied().unwrap_or(0);
            // Mostly well nested, now and then a skipped level or a deep start.
            let ceiling = if round % 3 == 0 { previous + 3 } else { previous + 1 };
            heights.push(1 + next(ceiling));
        }
        let tx = trace(&heights);
        let forest = get_indexed_instructions(&tx).unwrap();
        let expected = expected_parents(&heights);
        assert_eq!(parents(&forest), expected);
        let roots: Vec<usize> = (0..length).filter(|i| expected[*i].is_none()).collect();
        assert_eq!(forest.roots, roots);
        for (i, inner) in children(&forest).into_iter().enumerate() {
            let listed: Vec<usize> = (0..length).filter(|j| expected[*j] == Some(i)).collect();
            assert_eq!(inner, listed);
        }
        assert_eq!(forest.flattened(), (0..length).collect::<Vec<usize>>());
        for (i, top) in tops(&forest).into_iter().enumerate() {
            let last_root = (0..=i).rev().find(|j| expected[*j].is_none()).unwrap();
            assert_eq!(top, if last_root == i { None } else { Some(last_root) });
        }
    }
}
