//! Steers one instruction to the decoder of its program and annotates the
//! row of the event with the instruction's lineage.

use vstd::prelude::*;
use crate::block::{Instruction, Transaction};
use crate::events::{event_row, materialize, Event};
use crate::instruction::{enclosing, lemma_enclosing, root_ancestor, InstructionForest};
use crate::programs::{classify, family_of, ProgramFamily};
use crate::pubkey::base58_text;
use crate::row::{Row, RowKey, RowView};

verus! {

/// What the dispatch asks of the decoders: to decode one instruction of one
/// transaction of the block with the decoder of one program. The request
/// names the instruction by its position and hands over the raw instruction
/// and its transaction, from which the decoder can resolve what it needs.
#[derive(Clone, Copy, Debug, PartialEq, Eq)]
pub struct DecodeRequest<'a> {
    pub family: ProgramFamily,
    /// The position of the transaction in the block.
    pub transaction_index: u32,
    /// The flat index of the instruction in the transaction.
    pub instruction_index: i32,
    pub transaction: &'a Transaction,
    pub instruction: &'a Instruction,
}

/// The row with the lineage columns of instruction `i` at its end: program
/// and flat index of the instruction that encloses it and of the root of its
/// tree, or the empty text and -1 for an instruction that is a root itself.
/// `heights` and `programs` hold the stack height and the program address of
/// every instruction of the trace.
pub open spec fn lineage(row: RowView, heights: Seq<u32>, programs: Seq<Seq<u8>>, i: int) -> RowView {
    match enclosing(heights, i) {
        Some(parent) => {
            let top = root_ancestor(heights, i);
            row.text("parent_instruction_program_id"@, base58_text(programs[parent])).signed(
                "parent_instruction_index"@,
                parent as i64,
            ).text("top_instruction_program_id"@, base58_text(programs[top])).signed(
                "top_instruction_index"@,
                top as i64,
            )
        },
        None => row.text("parent_instruction_program_id"@, ""@).signed(
            "parent_instruction_index"@,
            -1i64,
        ).text("top_instruction_program_id"@, ""@).signed("top_instruction_index"@, -1i64),
    }
}

/// Adds the lineage columns of a node to its row.
pub fn set_lineage(row: &mut Row, forest: &InstructionForest, index: usize)
    requires
        forest.well_formed(),
        index < forest.nodes@.len(),
    ensures
        final(row)@ == lineage(old(row)@, forest.heights(), forest.program_ids(), index as int),
{
    let node = &forest.nodes[index];
    proof {
        lemma_enclosing(forest.heights(), index as int);
        lemma_root_ancestor_bound(forest.heights(), index as int);
    }
    match node.parent_instruction() {
        Some(parent) => {
            let top = node.top_instruction(forest).unwrap();
            let parent_node = &forest.nodes[parent];
            let top_node = &forest.nodes[top];
            row.set_text("parent_instruction_program_id", parent_node.program_id().to_base58());
            row.set_signed("parent_instruction_index", parent_node.index as i64);
            row.set_text("top_instruction_program_id", top_node.program_id().to_base58());
            row.set_signed("top_instruction_index", top_node.index as i64);
        },
        None => {
            row.set_text("parent_instruction_program_id", String::new());
            row.set_signed("parent_instruction_index", -1);
            row.set_text("top_instruction_program_id", String::new());
            row.set_signed("top_instruction_index", -1);
            proof {
                reveal_strlit("");
                assert(""@ =~= Seq::<char>::empty());
            }
        },
    }
}

/// The chain of enclosing instructions ends at or before the instruction
/// that it starts from, in a top-level instruction.
pub proof fn lemma_root_ancestor_bound(heights: Seq<u32>, i: int)
    requires
        0 <= i < heights.len(),
    ensures
        0 <= root_ancestor(heights, i) <= i,
        enclosing(heights, root_ancestor(heights, i)) is None,
    decreases i,
{
    lemma_enclosing(heights, i);
    match enclosing(heights, i) {
        Some(p) => lemma_root_ancestor_bound(heights, p),
        None => {},
    }
}

/// The row of an event of node `index`: the row of the event under the key
/// of the instruction, followed by the lineage columns.
pub fn instruction_row(
    forest: &InstructionForest,
    index: usize,
    event: Event,
    slot: u64,
    transaction_index: u32,
) -> (row: Row)
    requires
        forest.well_formed(),
        index < forest.nodes@.len(),
    ensures
        row@ == lineage(
            event_row(
                event,
                RowKey::Instruction { slot, transaction_index, instruction_index: index as i32 },
            ),
            forest.heights(),
            forest.program_ids(),
            index as int,
        ),
{
    let mut row = materialize(event, slot, transaction_index, forest.nodes[index].index);
    set_lineage(&mut row, forest, index);
    row
}

/// Processes one instruction. An instruction of no supported program yields
/// no row, and the decoder is not asked. Otherwise the decoder is asked once,
/// for this instruction and its program: the event that it returns becomes
/// the instruction's row with its lineage, no event becomes no row, and its
/// failure is handed on.
pub fn parse_instruction<'a, D: Fn(DecodeRequest<'a>) -> Result<Option<Event>, String>>(
    transaction: &'a Transaction,
    forest: &InstructionForest<'a>,
    index: usize,
    slot: u64,
    transaction_index: u32,
    decoder: &D,
) -> (result: Result<Option<Row>, String>)
    requires
        forest.well_formed(),
        index < forest.nodes@.len(),
        forall|request: DecodeRequest<'a>| call_requires(*decoder, (request,)),
    ensures
        match family_of(forest.nodes@[index as int].program_id@) {
            None => result == Ok::<Option<Row>, String>(None),
            Some(family) => exists|answer: Result<Option<Event>, String>|
                {
                    &&& call_ensures(
                        *decoder,
                        (
                            DecodeRequest {
                                family,
                                transaction_index,
                                instruction_index: index as i32,
                                transaction,
                                instruction: forest.nodes@[index as int].instruction,
                            },
                        ),
                        answer,
                    )
                    &&& answered(*forest, index as int, slot, transaction_index, answer, result)
                },
        },
{
    let node = &forest.nodes[index];
    let family = match classify(&node.program_id()) {
        Some(family) => family,
        None => {
            return Ok(None);
        },
    };
    let answer = decoder(
        DecodeRequest {
            family,
            transaction_index,
            instruction_index: node.index,
            transaction,
            instruction: node.instruction,
        },
    );
    let ghost given = answer;
    let result = match answer {
        Ok(Some(event)) => Ok(Some(instruction_row(forest, index, event, slot, transaction_index))),
        Ok(None) => Ok(None),
        Err(message) => Err(message),
    };
    assert(answered(*forest, index as int, slot, transaction_index, given, result));
    result
}

/// Whether `result` is what the dispatch makes of a decoder's answer for node `i`.
pub open spec fn answered(
    forest: InstructionForest,
    i: int,
    slot: u64,
    transaction_index: u32,
    answer: Result<Option<Event>, String>,
    result: Result<Option<Row>, String>,
) -> bool {
    match answer {
        Ok(Some(event)) => result matches Ok(Some(row)) && row@ == lineage(
            event_row(
                event,
                RowKey::Instruction { slot, transaction_index, instruction_index: i as i32 },
            ),
            forest.heights(),
            forest.program_ids(),
            i,
        ),
        Ok(None) => result == Ok::<Option<Row>, String>(None),
        Err(message) => result == Err::<Option<Row>, String>(message),
    }
}

} // verus!
