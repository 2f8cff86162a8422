//! What holds of the rows of every block, whatever the decoder answers.

use vstd::prelude::*;
use crate::block::{Block, Transaction};
use crate::dispatch::{lemma_root_ancestor_bound, DecodeRequest};
use crate::events::{event_row, Event};
use crate::instruction::{enclosing, lemma_enclosing, root_ancestor};
use crate::pipeline::{
    answer_at, answers_for, block_rows, blocks_row, consulted, decoder_gave, decoder_gave_all,
    event_rows, family_at, first_failure, instruction_event_row, program_address,
    rows_of_transactions, transaction_fault, transaction_rows,
};
use crate::pubkey::base58_text;
use crate::row::{lemma_column_map_last, RowKey, RowView, ValueView};
use crate::transaction::resolved_keys;

verus! {

/// The row of an event carries the key that it was made for.
pub proof fn lemma_event_row_key(event: Event, key: RowKey)
    ensures
        event_row(event, key).key == key,
{
}

/// Every event row of transaction `t` is keyed by the slot, by `t` and by
/// the flat index of an instruction of the transaction, and the rows come by
/// strictly increasing flat index.
pub proof fn lemma_event_rows_keyed(
    transaction: Transaction,
    slot: u64,
    t: u32,
    blockhash: Seq<char>,
    answers: Seq<Result<Option<Event>, String>>,
    upto: int,
)
    requires
        0 <= upto <= i32::MAX,
    ensures
        ({
            let rows = event_rows(transaction, slot, t, blockhash, answers, upto);
            &&& forall|k: int|
                0 <= k < rows.len() ==> {
                    let key = (#[trigger] rows[k]).key;
                    &&& key is Instruction
                    &&& key.slot() == slot
                    &&& key.transaction_index() == Some(t)
                    &&& 0 <= key->instruction_index < upto
                }
            &&& forall|j: int, k: int|
                0 <= j < k < rows.len() ==> rows[j].key->instruction_index
                    < rows[k].key->instruction_index
        }),
    decreases upto,
{
    if upto > 0 {
        lemma_event_rows_keyed(transaction, slot, t, blockhash, answers, upto - 1);
        match answer_at(answers, upto - 1) {
            Ok(Some(event)) => {
                lemma_event_row_key(
                    event,
                    RowKey::Instruction {
                        slot,
                        transaction_index: t,
                        instruction_index: (upto - 1) as i32,
                    },
                );
            },
            _ => {},
        }
    }
}

/// Whether the rows belong to transactions before `upto` that did not fail,
/// in block order, with at most one row of the `transactions` table each.
spec fn in_order(block: Block, rows: Seq<RowView>, upto: int) -> bool {
    &&& forall|k: int|
        0 <= k < rows.len() ==> {
            &&& (#[trigger] rows[k]).key.slot() == block.slot
            &&& rows[k].key.transaction_index() is Some
            &&& rows[k].key.transaction_index()->0 < upto
            &&& !block.transactions@[rows[k].key.transaction_index()->0 as int].failed()
        }
    &&& forall|j: int, k: int|
        0 <= j < k < rows.len() ==> rows[j].key.transaction_index()->0
            <= rows[k].key.transaction_index()->0
    &&& forall|j: int, k: int|
        0 <= j < k < rows.len() && rows[j].key is Transaction ==> rows[j].key.transaction_index()->0
            < rows[k].key.transaction_index()->0
    &&& forall|j: int, k: int|
        0 <= j < k < rows.len() && rows[j].key is Instruction && rows[k].key is Instruction
            && rows[j].key.transaction_index() == rows[k].key.transaction_index()
            ==> rows[j].key->instruction_index < rows[k].key->instruction_index
}

/// The rows of one transaction are its own, and only the last of them can be
/// a row of the `transactions` table.
proof fn lemma_transaction_rows_own(
    transaction: Transaction,
    slot: u64,
    t: u32,
    blockhash: Seq<char>,
    answers: Seq<Result<Option<Event>, String>>,
)
    requires
        transaction.instructions@.len() <= i32::MAX,
    ensures
        transaction_rows(transaction, slot, t, blockhash, answers) matches Ok(rows) ==> {
            &&& rows.len() > 0 ==> !transaction.failed()
            &&& forall|k: int|
                0 <= k < rows.len() ==> (#[trigger] rows[k]).key.slot() == slot
                    && rows[k].key.transaction_index() == Some(t)
            &&& forall|k: int|
                0 <= k < rows.len() - 1 ==> (#[trigger] rows[k]).key is Instruction
            &&& forall|j: int, k: int|
                0 <= j < k < rows.len() && rows[k].key is Instruction ==> rows[j].key->instruction_index
                    < rows[k].key->instruction_index
        },
{
    lemma_event_rows_keyed(
        transaction,
        slot,
        t,
        blockhash,
        answers,
        transaction.instructions@.len() as int,
    );
}

/// The rows of the transactions before `upto` come in block order.
proof fn lemma_rows_in_order(
    block: Block,
    answers: Seq<Seq<Result<Option<Event>, String>>>,
    upto: int,
)
    requires
        0 <= upto <= block.transactions@.len() <= u32::MAX,
        forall|t: int|
            0 <= t < block.transactions@.len() ==> (
            #[trigger] block.transactions@[t]).instructions@.len() <= i32::MAX,
    ensures
        rows_of_transactions(block, answers, upto) matches Ok(rows) ==> in_order(block, rows, upto),
    decreases upto,
{
    if upto > 0 {
        lemma_rows_in_order(block, answers, upto - 1);
        lemma_transaction_rows_own(
            block.transactions@[upto - 1],
            block.slot,
            (upto - 1) as u32,
            block.blockhash@,
            answers_for(answers, upto - 1),
        );
    }
}

/// A transaction that failed on chain is silent: no row of the block is
/// keyed by its position.
pub proof fn lemma_failed_transaction_silent(
    block: Block,
    answers: Seq<Seq<Result<Option<Event>, String>>>,
    t: int,
)
    requires
        block.transactions@.len() <= u32::MAX,
        forall|u: int|
            0 <= u < block.transactions@.len() ==> (
            #[trigger] block.transactions@[u]).instructions@.len() <= i32::MAX,
        0 <= t < block.transactions@.len(),
        block.transactions@[t].failed(),
        block_rows(block, answers) is Ok,
    ensures
        forall|k: int|
            0 <= k < block_rows(block, answers)->Ok_0.len() ==> (#[trigger] block_rows(
                block,
                answers,
            )->Ok_0[k]).key.transaction_index() != Some(t as u32),
{
    lemma_rows_in_order(block, answers, block.transactions@.len() as int);
}

/// Rows come in order: the rows of a transaction come before the rows of
/// every later transaction, the event rows of a transaction come by
/// strictly increasing flat index, and the row of the `transactions` table
/// comes after the event rows of its transaction.
pub proof fn lemma_rows_ordered(block: Block, answers: Seq<Seq<Result<Option<Event>, String>>>)
    requires
        block.transactions@.len() <= u32::MAX,
        forall|u: int|
            0 <= u < block.transactions@.len() ==> (
            #[trigger] block.transactions@[u]).instructions@.len() <= i32::MAX,
        block_rows(block, answers) is Ok,
    ensures
        ({
            let rows = block_rows(block, answers)->Ok_0;
            &&& forall|j: int, k: int|
                0 <= j < k < rows.len() - 1 ==> rows[j].key.transaction_index()->0
                    <= rows[k].key.transaction_index()->0
            &&& forall|j: int, k: int|
                0 <= j < k < rows.len() - 1 && rows[j].key is Transaction
                    ==> rows[j].key.transaction_index()->0 < rows[k].key.transaction_index()->0
            &&& forall|j: int, k: int|
                0 <= j < k < rows.len() - 1 && rows[j].key is Instruction
                    && rows[k].key is Instruction && rows[j].key.transaction_index()
                    == rows[k].key.transaction_index() ==> rows[j].key->instruction_index
                    < rows[k].key->instruction_index
        }),
{
    lemma_rows_in_order(block, answers, block.transactions@.len() as int);
}

/// Every batch closes with the one row of the `blocks` table, holds at most
/// one row of the `transactions` table for each transaction, and carries the
/// slot of the block in every key.
pub proof fn lemma_block_totality(block: Block, answers: Seq<Seq<Result<Option<Event>, String>>>)
    requires
        block.transactions@.len() <= u32::MAX,
        forall|u: int|
            0 <= u < block.transactions@.len() ==> (
            #[trigger] block.transactions@[u]).instructions@.len() <= i32::MAX,
        block_rows(block, answers) is Ok,
    ensures
        ({
            let rows = block_rows(block, answers)->Ok_0;
            &&& rows.len() > 0
            &&& rows.last() == blocks_row(block)
            &&& forall|k: int|
                0 <= k < rows.len() ==> ((#[trigger] rows[k]).key is Block <==> k == rows.len()
                    - 1)
            &&& forall|j: int, k: int|
                0 <= j < k < rows.len() && rows[j].key is Transaction && rows[k].key is Transaction
                    ==> rows[j].key != rows[k].key
            &&& forall|k: int| 0 <= k < rows.len() ==> (#[trigger] rows[k]).key.slot() == block.slot
        }),
{
    lemma_rows_in_order(block, answers, block.transactions@.len() as int);
}

/// Lineage is consistent: after the columns of its event, a row carries the
/// parent's program and flat index and the top instruction's program and
/// flat index. Where the parent index is not negative, it is the flat index
/// of the instruction that encloses the row's instruction, the parent program
/// is the program of that instruction, and the top index is the flat index
/// of the root at the end of the chain of enclosing instructions, which is
/// the root of the parent too. Otherwise the instruction is a root, both
/// indices are -1 and both programs are empty.
pub proof fn lemma_lineage_consistent(
    transaction: Transaction,
    slot: u64,
    t: u32,
    blockhash: Seq<char>,
    i: int,
    event: Event,
)
    requires
        0 <= i < transaction.instructions@.len() <= i32::MAX,
    ensures
        ({
            let key = RowKey::Instruction { slot, transaction_index: t, instruction_index: i as i32 };
            let base = event_row(event, key).columns.len() as int;
            let row = instruction_event_row(transaction, slot, t, blockhash, i, event);
            let heights = transaction.heights();
            &&& row.columns.len() == base + 6
            &&& row.columns[base].name == "parent_instruction_program_id"@
            &&& row.columns[base + 1].name == "parent_instruction_index"@
            &&& row.columns[base + 2].name == "top_instruction_program_id"@
            &&& row.columns[base + 3].name == "top_instruction_index"@
            &&& row.columns[base + 1].value is I64
            &&& row.columns[base + 3].value is I64
            &&& ({
                let parent = row.columns[base + 1].value->I64_0 as int;
                let top = row.columns[base + 3].value->I64_0 as int;
                if parent >= 0 {
                    &&& parent < i
                    &&& enclosing(heights, i) == Some(parent)
                    &&& row.columns[base].value == ValueView::Text(
                        base58_text(program_address(transaction, parent)),
                    )
                    &&& 0 <= top <= parent
                    &&& enclosing(heights, top) is None
                    &&& top == root_ancestor(heights, i)
                    &&& top == root_ancestor(heights, parent)
                    &&& row.columns[base + 2].value == ValueView::Text(
                        base58_text(program_address(transaction, top)),
                    )
                } else {
                    &&& parent == -1
                    &&& top == -1
                    &&& enclosing(heights, i) is None
                    &&& row.columns[base].value == ValueView::Text(""@)
                    &&& row.columns[base + 2].value == ValueView::Text(""@)
                }
            })
        }),
{
    let heights = transaction.heights();
    lemma_enclosing(heights, i);
    lemma_root_ancestor_bound(heights, i);
    if let Some(parent) = enclosing(heights, i) {
        lemma_root_ancestor_bound(heights, parent);
    }
}

/// Read by name, an event row tells its lineage: `parent_instruction_index`
/// and `parent_instruction_program_id` hold the flat index and the program of
/// the instruction that encloses the row's instruction, and
/// `top_instruction_index` and `top_instruction_program_id` those of the root
/// of its tree; for a root they hold -1 and the empty text.
pub proof fn lemma_lineage_by_name(
    transaction: Transaction,
    slot: u64,
    t: u32,
    blockhash: Seq<char>,
    i: int,
    event: Event,
)
    requires
        0 <= i < transaction.instructions@.len() <= i32::MAX,
    ensures
        ({
            let columns = instruction_event_row(transaction, slot, t, blockhash, i, event).mapping();
            let heights = transaction.heights();
            &&& columns.dom().contains("parent_instruction_index"@)
            &&& columns.dom().contains("parent_instruction_program_id"@)
            &&& columns.dom().contains("top_instruction_index"@)
            &&& columns.dom().contains("top_instruction_program_id"@)
            &&& match enclosing(heights, i) {
                Some(parent) => {
                    let top = root_ancestor(heights, i);
                    &&& columns["parent_instruction_index"@] == ValueView::I64(parent as i64)
                    &&& columns["parent_instruction_program_id"@] == ValueView::Text(
                        base58_text(program_address(transaction, parent)),
                    )
                    &&& columns["top_instruction_index"@] == ValueView::I64(top as i64)
                    &&& columns["top_instruction_program_id"@] == ValueView::Text(
                        base58_text(program_address(transaction, top)),
                    )
                },
                None => {
                    &&& columns["parent_instruction_index"@] == ValueView::I64(-1i64)
                    &&& columns["parent_instruction_program_id"@] == ValueView::Text(""@)
                    &&& columns["top_instruction_index"@] == ValueView::I64(-1i64)
                    &&& columns["top_instruction_program_id"@] == ValueView::Text(""@)
                },
            }
        }),
{
    let key = RowKey::Instruction { slot, transaction_index: t, instruction_index: i as i32 };
    let base = event_row(event, key).columns.len() as int;
    let row = instruction_event_row(transaction, slot, t, blockhash, i, event);
    lemma_lineage_consistent(transaction, slot, t, blockhash, i, event);
    lemma_root_ancestor_bound(transaction.heights(), i);
    // The six names differ in length, but for the last two, which come last.
    reveal_strlit("parent_instruction_program_id");
    reveal_strlit("parent_instruction_index");
    reveal_strlit("top_instruction_program_id");
    reveal_strlit("top_instruction_index");
    reveal_strlit("partial_signature");
    reveal_strlit("partial_blockhash");
    assert(row.columns[base + 4].name == "partial_signature"@);
    assert(row.columns[base + 5].name == "partial_blockhash"@);
    let lengths = seq![29int, 24, 26, 21, 17, 17];
    assert forall|j: int| base <= j < row.columns.len() implies (#[trigger] row.columns[j]).name.len()
        == lengths[j - base] by {}
    lemma_column_map_last(row.columns, "parent_instruction_program_id"@, base);
    lemma_column_map_last(row.columns, "parent_instruction_index"@, base + 1);
    lemma_column_map_last(row.columns, "top_instruction_program_id"@, base + 2);
    lemma_column_map_last(row.columns, "top_instruction_index"@, base + 3);
}

/// Whether two transactions are the same but for the programs of
/// instructions that invoke no supported program, which are programs that
/// are not supported in the other transaction either.
pub open spec fn same_but_unsupported_programs(one: Transaction, other: Transaction) -> bool {
    &&& one.failed() == other.failed()
    &&& transaction_fault(one) == transaction_fault(other)
    &&& one.heights() == other.heights()
    &&& one.signatures@.len() > 0 ==> other.signatures@.len() > 0 && one.signatures@[0]@
        == other.signatures@[0]@
    &&& resolved_keys(one).take(one.num_required_signatures as int) == resolved_keys(other).take(
        other.num_required_signatures as int,
    )
    &&& forall|i: int|
        0 <= i < one.instructions@.len() ==> #[trigger] family_at(one, i) == family_at(other, i)
}

/// Whether instruction `i` of a transaction yields a row: it invokes a
/// supported program, and the decoder returned an event for it.
pub open spec fn yields_row(
    transaction: Transaction,
    answers: Seq<Result<Option<Event>, String>>,
    i: int,
) -> bool {
    &&& family_at(transaction, i) is Some
    &&& answer_at(answers, i) is Ok
    &&& answer_at(answers, i)->Ok_0 is Some
}

/// Whether no instruction that yields a row has a parent or a top
/// instruction whose program differs between the two transactions.
pub open spec fn lineage_untouched(
    one: Transaction,
    other: Transaction,
    answers: Seq<Result<Option<Event>, String>>,
) -> bool {
    forall|i: int|
        0 <= i < one.instructions@.len() && #[trigger] yields_row(one, answers, i) ==> match enclosing(
            one.heights(),
            i,
        ) {
            Some(parent) => {
                &&& program_address(one, parent) == program_address(other, parent)
                &&& program_address(one, root_ancestor(one.heights(), i)) == program_address(
                    other,
                    root_ancestor(one.heights(), i),
                )
            },
            None => true,
        }
}

/// The event rows and the first failure of two transactions that differ only
/// in programs that are not supported and that no row names.
proof fn lemma_transaction_neutral(
    one: Transaction,
    other: Transaction,
    slot: u64,
    t: u32,
    blockhash: Seq<char>,
    answers: Seq<Result<Option<Event>, String>>,
    upto: int,
)
    requires
        same_but_unsupported_programs(one, other),
        lineage_untouched(one, other, answers),
        0 <= upto <= one.instructions@.len(),
        transaction_fault(one) is None,
    ensures
        event_rows(one, slot, t, blockhash, answers, upto) == event_rows(
            other,
            slot,
            t,
            blockhash,
            answers,
            upto,
        ),
        first_failure(one, answers, upto) == first_failure(other, answers, upto),
    decreases upto,
{
    if upto > 0 {
        let i = upto - 1;
        lemma_transaction_neutral(one, other, slot, t, blockhash, answers, i);
        if yields_row(one, answers, i) {
            lemma_enclosing(one.heights(), i);
            lemma_root_ancestor_bound(one.heights(), i);
        }
    }
}

/// The rows of the transactions before `upto` of two blocks that differ only
/// in programs that are not supported and that no row names.
proof fn lemma_transactions_neutral(
    one: Block,
    other: Block,
    answers: Seq<Seq<Result<Option<Event>, String>>>,
    upto: int,
)
    requires
        one.slot == other.slot,
        one.parent_slot == other.parent_slot,
        one.block_height == other.block_height,
        one.blockhash@ == other.blockhash@,
        one.previous_blockhash@ == other.previous_blockhash@,
        one.block_time == other.block_time,
        one.transactions@.len() == other.transactions@.len(),
        forall|t: int|
            0 <= t < one.transactions@.len() ==> same_but_unsupported_programs(
                #[trigger] one.transactions@[t],
                other.transactions@[t],
            ) && lineage_untouched(
                one.transactions@[t],
                other.transactions@[t],
                answers_for(answers, t),
            ),
        0 <= upto <= one.transactions@.len(),
    ensures
        rows_of_transactions(one, answers, upto) == rows_of_transactions(other, answers, upto),
        upto == one.transactions@.len() ==> block_rows(one, answers) == block_rows(other, answers),
    decreases upto,
{
    if upto > 0 {
        let t = upto - 1;
        lemma_transactions_neutral(one, other, answers, t);
        let a = one.transactions@[t];
        let b = other.transactions@[t];
        if !a.failed() && transaction_fault(a) is None {
            lemma_transaction_neutral(
                a,
                b,
                one.slot,
                t as u32,
                one.blockhash@,
                answers_for(answers, t),
                a.instructions@.len() as int,
            );
        }
    }
}

/// Programs that are not supported are neutral: two blocks that are the same
/// but for the programs of instructions that invoke no supported program
/// yield the same rows under the same answers of the decoder, unless such an
/// instruction is the parent or the top instruction of one that yields a
/// row; that row names the program.
pub proof fn lemma_unsupported_programs_neutral(
    one: Block,
    other: Block,
    answers: Seq<Seq<Result<Option<Event>, String>>>,
)
    requires
        one.slot == other.slot,
        one.parent_slot == other.parent_slot,
        one.block_height == other.block_height,
        one.blockhash@ == other.blockhash@,
        one.previous_blockhash@ == other.previous_blockhash@,
        one.block_time == other.block_time,
        one.transactions@.len() == other.transactions@.len(),
        forall|t: int|
            0 <= t < one.transactions@.len() ==> same_but_unsupported_programs(
                #[trigger] one.transactions@[t],
                other.transactions@[t],
            ) && lineage_untouched(
                one.transactions@[t],
                other.transactions@[t],
                answers_for(answers, t),
            ),
    ensures
        block_rows(one, answers) == block_rows(other, answers),
{
    lemma_transactions_neutral(one, other, answers, one.transactions@.len() as int);
}

/// Whether the decoder gives at most one answer to every request.
pub open spec fn single_valued<'a, D: Fn(DecodeRequest<'a>) -> Result<Option<Event>, String>>(
    decoder: D,
) -> bool {
    forall|request: DecodeRequest<'a>, one: Result<Option<Event>, String>, other: Result<Option<Event>, String>|
        call_ensures(decoder, (request,), one) && call_ensures(decoder, (request,), other) ==> one
            == other
}

/// Two lists of answers that a single-valued decoder gave for a transaction
/// agree up to the first failure.
proof fn lemma_transaction_determined<
    'a,
    D: Fn(DecodeRequest<'a>) -> Result<Option<Event>, String>,
>(
    decoder: D,
    transaction: Transaction,
    slot: u64,
    t: u32,
    blockhash: Seq<char>,
    one: Seq<Result<Option<Event>, String>>,
    other: Seq<Result<Option<Event>, String>>,
    upto: int,
)
    requires
        single_valued(decoder),
        decoder_gave(decoder, &transaction, t, one),
        decoder_gave(decoder, &transaction, t, other),
        !transaction.failed(),
        transaction_fault(transaction) is None,
        0 <= upto <= transaction.instructions@.len(),
    ensures
        first_failure(transaction, one, upto) == first_failure(transaction, other, upto),
        first_failure(transaction, one, upto) is None ==> event_rows(
            transaction,
            slot,
            t,
            blockhash,
            one,
            upto,
        ) == event_rows(transaction, slot, t, blockhash, other, upto),
        first_failure(transaction, one, upto) matches Some(i) ==> answer_at(one, i) == answer_at(
            other,
            i,
        ),
    decreases upto,
{
    if upto > 0 {
        let i = upto - 1;
        lemma_transaction_determined(decoder, transaction, slot, t, blockhash, one, other, i);
        if first_failure(transaction, one, i) is None && family_at(transaction, i) is Some {
            assert(consulted(transaction, one, i));
            assert(consulted(transaction, other, i));
        }
    }
}

/// Two lists of answers that a single-valued decoder gave for a block yield
/// the same rows for the transactions before `upto`.
proof fn lemma_transactions_determined<
    'a,
    D: Fn(DecodeRequest<'a>) -> Result<Option<Event>, String>,
>(
    decoder: D,
    block: Block,
    one: Seq<Seq<Result<Option<Event>, String>>>,
    other: Seq<Seq<Result<Option<Event>, String>>>,
    upto: int,
)
    requires
        single_valued(decoder),
        decoder_gave_all(decoder, &block, one),
        decoder_gave_all(decoder, &block, other),
        0 <= upto <= block.transactions@.len(),
    ensures
        rows_of_transactions(block, one, upto) == rows_of_transactions(block, other, upto),
    decreases upto,
{
    if upto > 0 {
        let t = upto - 1;
        lemma_transactions_determined(decoder, block, one, other, t);
        let transaction = block.transactions@[t];
        if rows_of_transactions(block, one, t) is Ok && !transaction.failed() && transaction_fault(
            transaction,
        ) is None {
            lemma_transaction_determined(
                decoder,
                transaction,
                block.slot,
                t as u32,
                block.blockhash@,
                answers_for(one, t),
                answers_for(other, t),
                transaction.instructions@.len() as int,
            );
        }
    }
}

/// The rows of a block are determined by the block and the decoder: if the
/// decoder gives at most one answer to every request, then every run on the
/// same block yields the same rows, or the same error.
pub proof fn lemma_rows_determined<'a, D: Fn(DecodeRequest<'a>) -> Result<Option<Event>, String>>(
    decoder: D,
    block: Block,
    one: Seq<Seq<Result<Option<Event>, String>>>,
    other: Seq<Seq<Result<Option<Event>, String>>>,
)
    requires
        single_valued(decoder),
        decoder_gave_all(decoder, &block, one),
        decoder_gave_all(decoder, &block, other),
    ensures
        block_rows(block, one) == block_rows(block, other),
{
    lemma_transactions_determined(decoder, block, one, other, block.transactions@.len() as int);
}

} // verus!
