//! The pipeline of one block: every transaction is resolved, its instruction
//! tree is rebuilt and dispatched, and the rows are staged in order.

use vstd::prelude::*;
use vstd::string::*;
use crate::block::{Block, Transaction};
use crate::dispatch::{answered, lineage, parse_instruction, DecodeRequest};
use crate::error::{BadInput, Error, ErrorView};
use crate::events::{event_row, Event};
use crate::instruction::{
    get_indexed_instructions, positions, span, trace_fault, IndexedInstructions, InstructionForest,
};
use crate::programs::{family_of, ProgramFamily};
use crate::pubkey::{base58_text, pubkey_views, Pubkey};
use crate::row::{Row, RowBatch, RowKey, RowSink, RowView};
use crate::transaction::{context_fault, resolved_keys, TransactionContext};

verus! {

/// What the decoder answered for instruction `i`; no event where the list
/// holds no answer for it.
pub open spec fn answer_at(answers: Seq<Result<Option<Event>, String>>, i: int) -> Result<
    Option<Event>,
    String,
> {
    if 0 <= i < answers.len() {
        answers[i]
    } else {
        Ok(None)
    }
}

/// The address of the program that instruction `i` of a transaction invokes.
pub open spec fn program_address(transaction: Transaction, i: int) -> Seq<u8> {
    resolved_keys(transaction)[transaction.instructions@[i].program_id_index as int]
}

/// The program addresses of a transaction's trace, in trace order.
pub open spec fn programs_of(transaction: Transaction) -> Seq<Seq<u8>> {
    Seq::new(transaction.instructions@.len(), |i: int| program_address(transaction, i))
}

/// The supported program that instruction `i` of a transaction invokes, if it invokes one.
pub open spec fn family_at(transaction: Transaction, i: int) -> Option<ProgramFamily> {
    family_of(program_address(transaction, i))
}

/// The first `count` characters of a text, or all of it if it has fewer.
pub open spec fn leading_text(text: Seq<char>, count: int) -> Seq<char> {
    if text.len() <= count {
        text
    } else {
        text.take(count)
    }
}

/// The first `count` characters of a text, or all of it if it has fewer.
pub fn leading(text: &str, count: usize) -> (head: String)
    ensures
        head@ == leading_text(text@, count as int),
{
    if text.unicode_len() <= count {
        text.to_owned()
    } else {
        text.substring_char(0, count).to_owned()
    }
}

/// The row of the event of instruction `i` of transaction `t`: the row of
/// the event under the instruction's key, then the lineage columns, then the
/// first four characters of the transaction's signature and of the blockhash.
pub open spec fn instruction_event_row(
    transaction: Transaction,
    slot: u64,
    t: u32,
    blockhash: Seq<char>,
    i: int,
    event: Event,
) -> RowView {
    lineage(
        event_row(
            event,
            RowKey::Instruction { slot, transaction_index: t, instruction_index: i as i32 },
        ),
        transaction.heights(),
        programs_of(transaction),
        i,
    ).text("partial_signature"@, leading_text(base58_text(transaction.signatures@[0]@), 4)).text(
        "partial_blockhash"@,
        leading_text(blockhash, 4),
    )
}

/// The first instruction before `upto` that a supported program was invoked
/// by and that the decoder failed on.
pub open spec fn first_failure(
    transaction: Transaction,
    answers: Seq<Result<Option<Event>, String>>,
    upto: int,
) -> Option<int>
    decreases upto,
{
    if upto <= 0 {
        None
    } else {
        match first_failure(transaction, answers, upto - 1) {
            Some(i) => Some(i),
            None => if family_at(transaction, upto - 1) is Some && answer_at(answers, upto - 1) is Err {
                Some(upto - 1)
            } else {
                None
            },
        }
    }
}

/// The event rows of the instructions before `upto`, in trace order: one for
/// every instruction of a supported program for which the decoder returned an event.
pub open spec fn event_rows(
    transaction: Transaction,
    slot: u64,
    t: u32,
    blockhash: Seq<char>,
    answers: Seq<Result<Option<Event>, String>>,
    upto: int,
) -> Seq<RowView>
    decreases upto,
{
    if upto <= 0 {
        Seq::empty()
    } else {
        let rest = event_rows(transaction, slot, t, blockhash, answers, upto - 1);
        match answer_at(answers, upto - 1) {
            Ok(Some(event)) => if family_at(transaction, upto - 1) is Some {
                rest.push(instruction_event_row(transaction, slot, t, blockhash, upto - 1, event))
            } else {
                rest
            },
            _ => rest,
        }
    }
}

/// Why a transaction cannot be dispatched, if anything.
pub open spec fn transaction_fault(transaction: Transaction) -> Option<BadInput> {
    match trace_fault(transaction) {
        Some(kind) => Some(kind),
        None => context_fault(transaction),
    }
}

/// What dispatching transaction `t` yields, given the decoder's answers: no
/// row for a failed transaction; an error for a malformed one and for one on
/// which the decoder failed; else the event rows in flat-index order.
pub open spec fn transaction_events(
    transaction: Transaction,
    slot: u64,
    t: u32,
    blockhash: Seq<char>,
    answers: Seq<Result<Option<Event>, String>>,
) -> Result<Seq<RowView>, ErrorView> {
    let count = transaction.instructions@.len() as int;
    if transaction.failed() {
        Ok(Seq::empty())
    } else {
        match transaction_fault(transaction) {
            Some(kind) => Err(ErrorView::BadInput { transaction_index: t, kind }),
            None => match first_failure(transaction, answers, count) {
                Some(i) => Err(
                    ErrorView::DecoderFailure {
                        signature: base58_text(transaction.signatures@[0]@),
                        instruction_index: i as i32,
                        message: answer_at(answers, i)->Err_0@,
                    },
                ),
                None => Ok(event_rows(transaction, slot, t, blockhash, answers, count)),
            },
        }
    }
}

/// Whether the decoder is asked about instruction `i` of a transaction: the
/// transaction is dispatched, the instruction invokes a supported program,
/// and the decoder failed on no earlier instruction.
pub open spec fn consulted(
    transaction: Transaction,
    answers: Seq<Result<Option<Event>, String>>,
    i: int,
) -> bool {
    &&& !transaction.failed()
    &&& transaction_fault(transaction) is None
    &&& family_at(transaction, i) is Some
    &&& first_failure(transaction, answers, i) is None
}

/// Whether every answer that counts for transaction `t` is one that the
/// decoder gave when it was asked for that instruction and its program.
pub open spec fn decoder_gave<'a, D: Fn(DecodeRequest<'a>) -> Result<Option<Event>, String>>(
    decoder: D,
    transaction: &'a Transaction,
    t: u32,
    answers: Seq<Result<Option<Event>, String>>,
) -> bool {
    forall|i: int|
        0 <= i < transaction.instructions@.len() && #[trigger] consulted(*transaction, answers, i)
            ==> call_ensures(
            decoder,
            (
                DecodeRequest {
                    family: family_at(*transaction, i)->0,
                    transaction_index: t,
                    instruction_index: i as i32,
                    transaction,
                    instruction: &transaction.instructions@[i],
                },
            ),
            answer_at(answers, i),
        )
}

/// The base58 text of the signer at a position, or the empty text where
/// there is no signer at it.
pub open spec fn signer_text(signers: Seq<Seq<u8>>, at: int) -> Seq<char> {
    if 0 <= at < signers.len() {
        base58_text(signers[at])
    } else {
        Seq::empty()
    }
}

/// The row of the `transactions` table for a transaction with a signature
/// text and a list of signers: the signature, the number of signers, and the
/// first eight signers.
pub open spec fn transactions_row_of(
    signature: Seq<char>,
    signers: Seq<Seq<u8>>,
    slot: u64,
    t: u32,
) -> RowView {
    RowView::new("transactions"@, RowKey::Transaction { slot, transaction_index: t }).text(
        "signature"@,
        signature,
    ).unsigned("number_of_signers"@, signers.len() as u64).text(
        "signer0"@,
        signer_text(signers, 0),
    ).text("signer1"@, signer_text(signers, 1)).text("signer2"@, signer_text(signers, 2)).text(
        "signer3"@,
        signer_text(signers, 3),
    ).text("signer4"@, signer_text(signers, 4)).text("signer5"@, signer_text(signers, 5)).text(
        "signer6"@,
        signer_text(signers, 6),
    ).text("signer7"@, signer_text(signers, 7))
}

/// The row of the `transactions` table for transaction `t` of a block.
pub open spec fn transactions_row(transaction: Transaction, slot: u64, t: u32) -> RowView {
    transactions_row_of(
        base58_text(transaction.signatures@[0]@),
        resolved_keys(transaction).take(transaction.num_required_signatures as int),
        slot,
        t,
    )
}

/// The event rows that dispatching transaction `t` stages, whether it
/// succeeds or not: none for a failed and for a malformed transaction, else
/// the rows of the instructions before the decoder's first failure.
pub open spec fn staged_events(
    transaction: Transaction,
    slot: u64,
    t: u32,
    blockhash: Seq<char>,
    answers: Seq<Result<Option<Event>, String>>,
) -> Seq<RowView> {
    let count = transaction.instructions@.len() as int;
    if transaction.failed() || transaction_fault(transaction) is Some {
        Seq::empty()
    } else {
        match first_failure(transaction, answers, count) {
            Some(i) => event_rows(transaction, slot, t, blockhash, answers, i),
            None => event_rows(transaction, slot, t, blockhash, answers, count),
        }
    }
}

/// Whether `result` and the rows staged are what dispatching transaction `t`
/// yields under the decoder's answers: the event rows follow the rows staged
/// before; on success the result tells whether there are any, and on failure
/// it is the error.
pub open spec fn dispatched(
    transaction: Transaction,
    slot: u64,
    t: u32,
    blockhash: Seq<char>,
    answers: Seq<Result<Option<Event>, String>>,
    before: Seq<RowView>,
    after: Seq<RowView>,
    result: Result<bool, Error>,
) -> bool {
    &&& after == before + staged_events(transaction, slot, t, blockhash, answers)
    &&& match transaction_events(transaction, slot, t, blockhash, answers) {
        Ok(events) => result == Ok::<bool, Error>(events.len() > 0),
        Err(e) => result matches Err(error) && error@ == e,
    }
}

/// Whether `result` and the rows staged are what dispatching transaction `t`
/// yields under the decoder's answers, where the result carries the row of
/// the `transactions` table if an event row was staged.
spec fn dispatched_with_row(
    transaction: Transaction,
    slot: u64,
    t: u32,
    blockhash: Seq<char>,
    answers: Seq<Result<Option<Event>, String>>,
    before: Seq<RowView>,
    after: Seq<RowView>,
    result: Result<Option<Row>, Error>,
) -> bool {
    &&& after == before + staged_events(transaction, slot, t, blockhash, answers)
    &&& match transaction_events(transaction, slot, t, blockhash, answers) {
        Ok(events) => {
            &&& result is Ok
            &&& events.len() == 0 ==> result->Ok_0 is None
            &&& events.len() > 0 ==> (result->Ok_0 matches Some(row) && row@ == transactions_row(
                transaction,
                slot,
                t,
            ))
        },
        Err(e) => result matches Err(error) && error@ == e,
    }
}

/// Answers that agree before `upto` give the same rows and the same first failure.
proof fn lemma_answers_agree(
    transaction: Transaction,
    slot: u64,
    t: u32,
    blockhash: Seq<char>,
    one: Seq<Result<Option<Event>, String>>,
    other: Seq<Result<Option<Event>, String>>,
    upto: int,
)
    requires
        forall|i: int| 0 <= i < upto ==> answer_at(one, i) == answer_at(other, i),
    ensures
        event_rows(transaction, slot, t, blockhash, one, upto) == event_rows(
            transaction,
            slot,
            t,
            blockhash,
            other,
            upto,
        ),
        first_failure(transaction, one, upto) == first_failure(transaction, other, upto),
    decreases upto,
{
    if upto > 0 {
        lemma_answers_agree(transaction, slot, t, blockhash, one, other, upto - 1);
    }
}

/// A failure is the first failure from then on, unless there is an earlier one.
proof fn lemma_failure_lasts(
    transaction: Transaction,
    answers: Seq<Result<Option<Event>, String>>,
    at: int,
    upto: int,
)
    requires
        0 <= at < upto,
        first_failure(transaction, answers, at + 1) == Some(at),
    ensures
        first_failure(transaction, answers, upto) == Some(at),
    decreases upto,
{
    if upto > at + 1 {
        lemma_failure_lasts(transaction, answers, at, upto - 1);
    }
}

/// What a forest that indexes a transaction says of the trace is what the
/// transaction says of it.
proof fn lemma_forest_agrees(forest: InstructionForest, transaction: Transaction)
    requires
        forest.indexes(transaction),
    ensures
        forest.well_formed(),
        forest.nodes@.len() == transaction.instructions@.len(),
        forest.heights() == transaction.heights(),
        forest.program_ids() == programs_of(transaction),
        forall|i: int|
            0 <= i < forest.nodes@.len() ==> *(#[trigger] forest.nodes@[i]).instruction
                == transaction.instructions@[i],
{
}

/// What one more answer adds to the rows and to the first failure.
proof fn lemma_one_more_answer(
    transaction: Transaction,
    slot: u64,
    t: u32,
    blockhash: Seq<char>,
    earlier: Seq<Result<Option<Event>, String>>,
    answer: Result<Option<Event>, String>,
)
    ensures
        ({
            let k = earlier.len() as int;
            let answers = earlier.push(answer);
            let rest = event_rows(transaction, slot, t, blockhash, earlier, k);
            &&& event_rows(transaction, slot, t, blockhash, answers, k + 1) == match answer {
                Ok(Some(event)) => if family_at(transaction, k) is Some {
                    rest.push(instruction_event_row(transaction, slot, t, blockhash, k, event))
                } else {
                    rest
                },
                _ => rest,
            }
            &&& first_failure(transaction, answers, k + 1) == match first_failure(
                transaction,
                earlier,
                k,
            ) {
                Some(i) => Some(i),
                None => if family_at(transaction, k) is Some && answer is Err {
                    Some(k)
                } else {
                    None
                },
            }
            &&& first_failure(transaction, answers, k) == first_failure(transaction, earlier, k)
            &&& event_rows(transaction, slot, t, blockhash, answers, k) == rest
        }),
{
    let k = earlier.len() as int;
    let answers = earlier.push(answer);
    lemma_answers_agree(transaction, slot, t, blockhash, earlier, answers, k);
}

/// Once the decoder has failed on instruction `k`, the transaction yields
/// that failure, and the decoder is asked about no later instruction.
proof fn lemma_failed_at(
    transaction: Transaction,
    slot: u64,
    t: u32,
    blockhash: Seq<char>,
    answers: Seq<Result<Option<Event>, String>>,
    k: int,
)
    requires
        0 <= k < transaction.instructions@.len(),
        !transaction.failed(),
        transaction_fault(transaction) is None,
        first_failure(transaction, answers, k + 1) == Some(k),
    ensures
        transaction_events(transaction, slot, t, blockhash, answers) == Err::<
            Seq<RowView>,
            ErrorView,
        >(
            ErrorView::DecoderFailure {
                signature: base58_text(transaction.signatures@[0]@),
                instruction_index: k as i32,
                message: answer_at(answers, k)->Err_0@,
            },
        ),
        forall|i: int|
            k < i < transaction.instructions@.len() ==> !#[trigger] consulted(
                transaction,
                answers,
                i,
            ),
        staged_events(transaction, slot, t, blockhash, answers) == event_rows(
            transaction,
            slot,
            t,
            blockhash,
            answers,
            k,
        ),
{
    let count = transaction.instructions@.len() as int;
    lemma_failure_lasts(transaction, answers, k, count);
    assert forall|i: int| k < i < count implies !#[trigger] consulted(transaction, answers, i) by {
        lemma_failure_lasts(transaction, answers, k, i);
    }
}

/// The base58 text of the signer at a position, or the empty text where
/// there is no signer at it.
fn signer_at(signers: &Vec<Pubkey>, at: usize) -> (text: String)
    ensures
        text@ == signer_text(pubkey_views(signers@), at as int),
{
    if at < signers.len() {
        signers[at].to_base58()
    } else {
        String::new()
    }
}

/// Builds the row of the `transactions` table from a transaction's context.
fn make_transactions_row(context: TransactionContext, slot: u64, transaction_index: u32) -> (row:
    Row)
    ensures
        row@ == transactions_row_of(
            context.signature@,
            pubkey_views(context.signers@),
            slot,
            transaction_index,
        ),
{
    let signers = &context.signers;
    let mut row = Row::new("transactions", RowKey::Transaction { slot, transaction_index });
    row.set_text("signature", context.signature);
    row.set_unsigned("number_of_signers", signers.len() as u64);
    row.set_text("signer0", signer_at(signers, 0));
    row.set_text("signer1", signer_at(signers, 1));
    row.set_text("signer2", signer_at(signers, 2));
    row.set_text("signer3", signer_at(signers, 3));
    row.set_text("signer4", signer_at(signers, 4));
    row.set_text("signer5", signer_at(signers, 5));
    row.set_text("signer6", signer_at(signers, 6));
    row.set_text("signer7", signer_at(signers, 7));
    row
}

/// Dispatches one transaction and reports, besides the result, the answers
/// that the decoder gave.
fn dispatch_transaction<'a, D: Fn(DecodeRequest<'a>) -> Result<Option<Event>, String>>(
    transaction: &'a Transaction,
    transaction_index: u32,
    slot: u64,
    blockhash: &String,
    sink: &mut RowSink,
    decoder: &D,
) -> (out: (Result<Option<Row>, Error>, Ghost<Seq<Result<Option<Event>, String>>>))
    requires
        transaction.instructions@.len() <= i32::MAX,
        forall|request: DecodeRequest<'a>| call_requires(*decoder, (request,)),
    ensures
        decoder_gave(*decoder, transaction, transaction_index, out.1@),
        dispatched_with_row(
            *transaction,
            slot,
            transaction_index,
            blockhash@,
            out.1@,
            old(sink)@,
            final(sink)@,
            out.0,
        ),
{
    let ghost none = Seq::<Result<Option<Event>, String>>::empty();
    let ghost before = sink@;
    match &transaction.meta {
        Some(meta) => {
            if meta.err.is_some() {
                return (Ok(None), Ghost(none));
            }
        },
        None => {},
    }
    let forest = match get_indexed_instructions(transaction) {
        Ok(forest) => forest,
        Err(kind) => {
            return (Err(Error::BadInput { transaction_index, kind }), Ghost(none));
        },
    };
    let context = match TransactionContext::build(transaction) {
        Ok(context) => context,
        Err(kind) => {
            return (Err(Error::BadInput { transaction_index, kind }), Ghost(none));
        },
    };
    let partial_signature = leading(context.signature.as_str(), 4);
    let partial_blockhash = leading(blockhash.as_str(), 4);
    let order = forest.flattened();
    let count = order.len();
    let ghost mut answers = none;
    proof {
        forest.lemma_preorder_is_flat_order();
        lemma_forest_agrees(forest, *transaction);
        assert(positions(order@).len() == order@.len());
    }
    let mut changed = false;
    let mut k: usize = 0;
    while k < count
        invariant
            k <= count == order@.len() == transaction.instructions@.len() <= i32::MAX,
            positions(order@) == span(0, count as int),
            forest.well_formed(),
            forest.nodes@.len() == count,
            forest.heights() == transaction.heights(),
            forest.program_ids() == programs_of(*transaction),
            forall|i: int|
                0 <= i < count ==> *(#[trigger] forest.nodes@[i]).instruction
                    == transaction.instructions@[i],
            !transaction.failed(),
            transaction_fault(*transaction) is None,
            forall|request: DecodeRequest<'a>| call_requires(*decoder, (request,)),
            partial_signature@ == leading_text(base58_text(transaction.signatures@[0]@), 4),
            partial_blockhash@ == leading_text(blockhash@, 4),
            context.signature@ == base58_text(transaction.signatures@[0]@),
            pubkey_views(context.signers@) == resolved_keys(*transaction).take(
                transaction.num_required_signatures as int,
            ),
            answers.len() == k,
            first_failure(*transaction, answers, k as int) is None,
            before == old(sink)@,
            sink@ == before + event_rows(
                *transaction,
                slot,
                transaction_index,
                blockhash@,
                answers,
                k as int,
            ),
            changed == (event_rows(
                *transaction,
                slot,
                transaction_index,
                blockhash@,
                answers,
                k as int,
            ).len() > 0),
            forall|i: int|
                0 <= i < k && family_at(*transaction, i) is Some ==> call_ensures(
                    *decoder,
                    (
                        DecodeRequest {
                            family: family_at(*transaction, i)->0,
                            transaction_index,
                            instruction_index: i as i32,
                            transaction,
                            instruction: &transaction.instructions@[i],
                        },
                    ),
                    #[trigger] answers[i],
                ),
        decreases count - k,
    {
        let index = order[k];
        proof {
            assert(positions(order@)[k as int] == index as int);
            assert(forest.program_ids()[k as int] == program_address(*transaction, k as int));
        }
        let outcome = parse_instruction(
            transaction,
            &forest,
            index,
            slot,
            transaction_index,
            decoder,
        );
        let ghost request = DecodeRequest {
            family: family_at(*transaction, k as int)->0,
            transaction_index,
            instruction_index: k as i32,
            transaction,
            instruction: &transaction.instructions@[k as int],
        };
        let ghost answer: Result<Option<Event>, String> = if family_at(*transaction, k as int)
            is Some {
            choose|answer: Result<Option<Event>, String>|
                call_ensures(*decoder, (request,), answer) && answered(
                    forest,
                    k as int,
                    slot,
                    transaction_index,
                    answer,
                    outcome,
                )
        } else {
            Ok(None)
        };
        let ghost earlier = answers;
        proof {
            answers = earlier.push(answer);
            lemma_one_more_answer(
                *transaction,
                slot,
                transaction_index,
                blockhash@,
                earlier,
                answer,
            );
            assert forall|i: int|
                0 <= i < k + 1 && family_at(*transaction, i) is Some implies call_ensures(
                *decoder,
                (
                    DecodeRequest {
                        family: family_at(*transaction, i)->0,
                        transaction_index,
                        instruction_index: i as i32,
                        transaction,
                        instruction: &transaction.instructions@[i],
                    },
                ),
                #[trigger] answers[i],
            ) by {}
        }
        match outcome {
            Ok(Some(row)) => {
                let mut row = row;
                row.set_text("partial_signature", partial_signature.clone());
                row.set_text("partial_blockhash", partial_blockhash.clone());
                sink.push(row);
                changed = true;
            },
            Ok(None) => {},
            Err(message) => {
                proof {
                    lemma_failed_at(
                        *transaction,
                        slot,
                        transaction_index,
                        blockhash@,
                        answers,
                        k as int,
                    );
                }
                let error = Error::DecoderFailure {
                    signature: context.signature,
                    instruction_index: index as i32,
                    message,
                };
                return (Err(error), Ghost(answers));
            },
        }
        k += 1;
    }
    if changed {
        let row = make_transactions_row(context, slot, transaction_index);
        (Ok(Some(row)), Ghost(answers))
    } else {
        (Ok(None), Ghost(answers))
    }
}

/// Dispatches one transaction: a failed transaction is skipped; otherwise its
/// instruction tree is rebuilt, its context is resolved, and its instructions
/// are processed in flat-index order. Every event row is staged with the
/// first four characters of the signature and of the blockhash as its last
/// columns. Returns whether a row was staged.
///
/// The first failure of the decoder aborts the transaction; the error names
/// the transaction's signature and the instruction's flat index.
pub fn parse_transaction<'a, D: Fn(DecodeRequest<'a>) -> Result<Option<Event>, String>>(
    transaction: &'a Transaction,
    transaction_index: u32,
    slot: u64,
    blockhash: &String,
    sink: &mut RowSink,
    decoder: &D,
) -> (result: Result<bool, Error>)
    requires
        transaction.instructions@.len() <= i32::MAX,
        forall|request: DecodeRequest<'a>| call_requires(*decoder, (request,)),
    ensures
        exists|answers: Seq<Result<Option<Event>, String>>|
            {
                &&& decoder_gave(*decoder, transaction, transaction_index, answers)
                &&& #[trigger] dispatched(
                    *transaction,
                    slot,
                    transaction_index,
                    blockhash@,
                    answers,
                    old(sink)@,
                    final(sink)@,
                    result,
                )
            },
{
    let (outcome, Ghost(answers)) = dispatch_transaction(
        transaction,
        transaction_index,
        slot,
        blockhash,
        sink,
        decoder,
    );
    let result = match outcome {
        Ok(row) => Ok(row.is_some()),
        Err(error) => Err(error),
    };
    assert(dispatched(
        *transaction,
        slot,
        transaction_index,
        blockhash@,
        answers,
        old(sink)@,
        sink@,
        result,
    ));
    result
}

/// The decoder's answers for transaction `t`; none where the list holds none for it.
pub open spec fn answers_for(answers: Seq<Seq<Result<Option<Event>, String>>>, t: int) -> Seq<
    Result<Option<Event>, String>,
> {
    if 0 <= t < answers.len() {
        answers[t]
    } else {
        Seq::empty()
    }
}

/// The rows of transaction `t`: its event rows, followed by its row of the
/// `transactions` table if there is an event row.
pub open spec fn transaction_rows(
    transaction: Transaction,
    slot: u64,
    t: u32,
    blockhash: Seq<char>,
    answers: Seq<Result<Option<Event>, String>>,
) -> Result<Seq<RowView>, ErrorView> {
    match transaction_events(transaction, slot, t, blockhash, answers) {
        Ok(events) => if events.len() > 0 {
            Ok(events.push(transactions_row(transaction, slot, t)))
        } else {
            Ok(events)
        },
        Err(e) => Err(e),
    }
}

/// The rows of the transactions before `upto`, in block order, or the error
/// of the first transaction that has one.
pub open spec fn rows_of_transactions(
    block: Block,
    answers: Seq<Seq<Result<Option<Event>, String>>>,
    upto: int,
) -> Result<Seq<RowView>, ErrorView>
    decreases upto,
{
    if upto <= 0 {
        Ok(Seq::empty())
    } else {
        match rows_of_transactions(block, answers, upto - 1) {
            Ok(rows) => match transaction_rows(
                block.transactions@[upto - 1],
                block.slot,
                (upto - 1) as u32,
                block.blockhash@,
                answers_for(answers, upto - 1),
            ) {
                Ok(more) => Ok(rows + more),
                Err(e) => Err(e),
            },
            Err(e) => Err(e),
        }
    }
}

/// The row of the `blocks` table for a block.
pub open spec fn blocks_row(block: Block) -> RowView {
    RowView::new("blocks"@, RowKey::Block { slot: block.slot }).unsigned(
        "parent_slot"@,
        block.parent_slot,
    ).unsigned("block_height"@, block.block_height).text("blockhash"@, block.blockhash@).text(
        "previous_blockhash"@,
        block.previous_blockhash@,
    ).signed("block_time"@, block.block_time)
}

/// The rows of a block, given the decoder's answers: the rows of its
/// transactions in block order, then the row of the `blocks` table; or the
/// error of the first transaction that has one.
pub open spec fn block_rows(block: Block, answers: Seq<Seq<Result<Option<Event>, String>>>) -> Result<
    Seq<RowView>,
    ErrorView,
> {
    match rows_of_transactions(block, answers, block.transactions@.len() as int) {
        Ok(rows) => Ok(rows.push(blocks_row(block))),
        Err(e) => Err(e),
    }
}

/// Whether every answer that counts for a block is one that the decoder gave
/// when it was asked. No answer counts for a transaction that follows one
/// with an error.
pub open spec fn decoder_gave_all<'a, D: Fn(DecodeRequest<'a>) -> Result<Option<Event>, String>>(
    decoder: D,
    block: &'a Block,
    answers: Seq<Seq<Result<Option<Event>, String>>>,
) -> bool {
    forall|t: int|
        0 <= t < block.transactions@.len() && rows_of_transactions(*block, answers, t) is Ok
            ==> decoder_gave(
            decoder,
            &block.transactions@[t],
            t as u32,
            #[trigger] answers_for(answers, t),
        )
}

/// Answers that agree for the transactions before `upto` give the same rows.
proof fn lemma_transactions_agree(
    block: Block,
    one: Seq<Seq<Result<Option<Event>, String>>>,
    other: Seq<Seq<Result<Option<Event>, String>>>,
    upto: int,
)
    requires
        forall|t: int| 0 <= t < upto ==> answers_for(one, t) == answers_for(other, t),
    ensures
        rows_of_transactions(block, one, upto) == rows_of_transactions(block, other, upto),
    decreases upto,
{
    if upto > 0 {
        lemma_transactions_agree(block, one, other, upto - 1);
    }
}

/// An error among the transactions before `at` is the error for every longer stretch.
proof fn lemma_error_lasts(
    block: Block,
    answers: Seq<Seq<Result<Option<Event>, String>>>,
    at: int,
    upto: int,
)
    requires
        0 <= at <= upto,
        rows_of_transactions(block, answers, at) is Err,
    ensures
        rows_of_transactions(block, answers, upto) == rows_of_transactions(block, answers, at),
    decreases upto,
{
    if upto > at {
        lemma_error_lasts(block, answers, at, upto - 1);
    }
}

/// Builds the row of the `blocks` table.
fn make_blocks_row(block: &Block) -> (row: Row)
    ensures
        row@ == blocks_row(*block),
{
    let mut row = Row::new("blocks", RowKey::Block { slot: block.slot });
    row.set_unsigned("parent_slot", block.parent_slot);
    row.set_unsigned("block_height", block.block_height);
    row.set_text("blockhash", block.blockhash.clone());
    row.set_text("previous_blockhash", block.previous_blockhash.clone());
    row.set_signed("block_time", block.block_time);
    row
}

/// Turns one block into its batch of row changes.
///
/// The transactions are dispatched in block order. A transaction that
/// yields an event row also yields one row of the `transactions` table,
/// after its event rows. One row of the `blocks` table closes the batch.
/// The decoder is asked once for every instruction of a supported program
/// in a transaction that did not fail, in order, until it fails. Its first
/// failure, or the first malformed transaction, is the error of the block,
/// and no batch is returned.
pub fn block_database_changes<'a, D: Fn(DecodeRequest<'a>) -> Result<Option<Event>, String>>(
    block: &'a Block,
    decoder: &D,
) -> (result: Result<RowBatch, Error>)
    requires
        block.transactions@.len() <= u32::MAX,
        forall|t: int|
            0 <= t < block.transactions@.len() ==> (
            #[trigger] block.transactions@[t]).instructions@.len() <= i32::MAX,
        forall|request: DecodeRequest<'a>| call_requires(*decoder, (request,)),
    ensures
        exists|answers: Seq<Seq<Result<Option<Event>, String>>>|
            {
                &&& decoder_gave_all(*decoder, block, answers)
                &&& match #[trigger] block_rows(*block, answers) {
                    Ok(rows) => result matches Ok(batch) && batch@ == rows,
                    Err(e) => result matches Err(error) && error@ == e,
                }
            },
{
    let mut sink = RowSink::new();
    let count = block.transactions.len();
    let ghost mut answers = Seq::<Seq<Result<Option<Event>, String>>>::empty();
    let mut t: usize = 0;
    while t < count
        invariant
            t <= count == block.transactions@.len() <= u32::MAX,
            forall|u: int|
                0 <= u < block.transactions@.len() ==> (
                #[trigger] block.transactions@[u]).instructions@.len() <= i32::MAX,
            forall|request: DecodeRequest<'a>| call_requires(*decoder, (request,)),
            answers.len() == t,
            rows_of_transactions(*block, answers, t as int) == Ok::<Seq<RowView>, ErrorView>(sink@),
            forall|u: int|
                0 <= u < t ==> decoder_gave(
                    *decoder,
                    &block.transactions@[u],
                    u as u32,
                    #[trigger] answers_for(answers, u),
                ),
        decreases count - t,
    {
        let transaction = &block.transactions[t];
        let (outcome, Ghost(given)) = dispatch_transaction(
            transaction,
            t as u32,
            block.slot,
            &block.blockhash,
            &mut sink,
            decoder,
        );
        let ghost earlier = answers;
        proof {
            answers = earlier.push(given);
            lemma_transactions_agree(*block, earlier, answers, t as int);
            assert forall|u: int| 0 <= u < t + 1 implies decoder_gave(
                *decoder,
                &block.transactions@[u],
                u as u32,
                #[trigger] answers_for(answers, u),
            ) by {
                if u < t {
                    assert(answers_for(answers, u) == answers_for(earlier, u));
                }
            }
        }
        match outcome {
            Ok(Some(row)) => {
                sink.push(row);
            },
            Ok(None) => {},
            Err(error) => {
                proof {
                    lemma_error_lasts(*block, answers, t + 1, count as int);
                    assert forall|u: int|
                        0 <= u < count && rows_of_transactions(
                            *block,
                            answers,
                            u,
                        ) is Ok implies decoder_gave(
                        *decoder,
                        &block.transactions@[u],
                        u as u32,
                        #[trigger] answers_for(answers, u),
                    ) by {
                        if u > t {
                            lemma_error_lasts(*block, answers, t + 1, u);
                        }
                    }
                    assert(block_rows(*block, answers) is Err);
                }
                return Err(error);
            },
        }
        t += 1;
    }
    sink.push(make_blocks_row(block));
    let batch = sink.into_batch();
    assert(block_rows(*block, answers) == Ok::<Seq<RowView>, ErrorView>(batch@));
    Ok(batch)
}

} // verus!
