use solana_rows::block::{Block, Instruction, Transaction, TransactionMeta};
use solana_rows::dispatch::DecodeRequest;
use solana_rows::error::{BadInput, Error};
use solana_rows::events::mpl_token_metadata::{MplTokenMetadataEvent, OtherInstruction};
use solana_rows::events::raydium_amm::{RaydiumAmmEvent, Swap};
use solana_rows::events::spl_token::{SplTokenEvent, TokenAccount, Transfer};
use solana_rows::events::system_program::{self, SystemProgramEvent};
use solana_rows::events::Event;
use solana_rows::pipeline::{block_database_changes, leading, parse_transaction};
use solana_rows::programs::{
    ProgramFamily, MPL_TOKEN_METADATA_PROGRAM_ID, RAYDIUM_AMM_PROGRAM_ID, SYSTEM_PROGRAM_ID,
    TOKEN_PROGRAM_ID,
};
use solana_rows::pubkey::Pubkey;
use solana_rows::row::{Column, Operation, Row, RowBatch, RowKey, RowSink, Value};
use solana_rows::transaction::TransactionContext;

const OWNER_ONE: [u8; 32] = [1; 32];
const OWNER_TWO: [u8; 32] = [2; 32];
const ACCOUNT_X: [u8; 32] = [3; 32];
const ACCOUNT_Y: [u8; 32] = [4; 32];
const MINT: [u8; 32] = [5; 32];
const UNKNOWN_PROGRAM: [u8; 32] = [9; 32];
const OTHER_UNKNOWN_PROGRAM: [u8; 32] = [10; 32];

fn text_of(bytes: [u8; 32]) -> String {
    Pubkey::new(bytes).to_base58()
}

fn text(name: &str, value: &str) -> Column {
    Column { name: name.to_string(), value: Value::Text(value.to_string()) }
}

fn unsigned(name: &str, value: u64) -> Column {
    Column { name: name.to_string(), value: Value::U64(value) }
}

fn signed(name: &str, value: i64) -> Column {
    Column { name: name.to_string(), value: Value::I64(value) }
}

fn instruction(program_id_index: u32, stack_height: u32) -> Instruction {
    Instruction { program_id_index, accounts: vec![], data: vec![], stack_height }
}

fn meta() -> TransactionMeta {
    TransactionMeta {
        err: None,
        loaded_writable_addresses: vec![],
        loaded_readonly_addresses: vec![],
        pre_token_balances: vec![],
        post_token_balances: vec![],
    }
}

/// A transaction signed by the first key; its signature reads "sig1" in base58.
fn transaction(keys: Vec<[u8; 32]>, instructions: Vec<Instruction>) -> Transaction {
    Transaction {
        signatures: vec![vec![150, 255, 106]],
        account_keys: keys.iter().map(|k| k.to_vec()).collect(),
        num_required_signatures: 1,
        meta: Some(meta()),
        instructions,
    }
}

fn block(transactions: Vec<Transaction>) -> Block {
    Block {
        slot: 100,
        parent_slot: 99,
        block_height: 99,
        blockhash: "A".repeat(32),
        previous_blockhash: "B".repeat(32),
        block_time: 1_700_000_000,
        transactions,
    }
}

fn transfer(amount: u64) -> Event {
    Event::SplToken(SplTokenEvent::Transfer(Transfer {
        source: TokenAccount {
            address: text_of(ACCOUNT_X),
            owner: text_of(OWNER_ONE),
            mint: text_of(MINT),
            pre_balance: Some(100),
            post_balance: Some(100 - amount),
        },
        destination: TokenAccount {
            address: text_of(ACCOUNT_Y),
            owner: text_of(OWNER_TWO),
            mint: text_of(MINT),
            pre_balance: Some(7),
            post_balance: Some(7 + amount),
        },
        authority: text_of(OWNER_ONE),
        amount,
    }))
}

fn swap() -> Event {
    Event::RaydiumAmm(RaydiumAmmEvent::Swap(Swap {
        amm: "amm".to_string(),
        user: text_of(OWNER_ONE),
        amount_in: 10,
        amount_out: 20,
        mint_in: "in".to_string(),
        mint_out: "out".to_string(),
        direction: "pc_to_coin".to_string(),
        pool_pc_amount: None,
        pool_coin_amount: Some(5),
        user_pre_balance_in: None,
        user_pre_balance_out: None,
    }))
}

fn system_transfer(lamports: u64) -> Event {
    Event::SystemProgram(SystemProgramEvent::Transfer(system_program::Transfer {
        funding_account: text_of(OWNER_ONE),
        recipient_account: text_of(OWNER_TWO),
        lamports,
    }))
}

/// A decoder that knows one event per supported program.
fn decode(request: DecodeRequest) -> Result<Option<Event>, String> {
    match request.family {
        ProgramFamily::SplToken => Ok(Some(transfer(42))),
        ProgramFamily::RaydiumAmm => Ok(Some(swap())),
        ProgramFamily::SystemProgram => Ok(Some(system_transfer(request.instruction_index as u64))),
        ProgramFamily::MplTokenMetadata => {
            Ok(Some(Event::MplTokenMetadata(MplTokenMetadataEvent::Other(OtherInstruction::SignMetadata))))
        }
        ProgramFamily::Pumpfun => Ok(None),
    }
}

fn rows(batch: &RowBatch) -> Vec<Row> {
    batch.changes.iter().map(|c| c.row.clone()).collect()
}

fn tables(batch: &RowBatch) -> Vec<String> {
    batch.changes.iter().map(|c| c.row.table.clone()).collect()
}

fn column<'a>(row: &'a Row, name: &str) -> &'a Value {
    let found: Vec<&Column> = row.columns.iter().filter(|c| c.name == name).collect();
    assert_eq!(found.len(), 1, "column {name}");
    assert_eq!(row.get(name), Some(&found[0].value));
    &found[0].value
}

fn blocks_row() -> Row {
    Row {
        table: "blocks".to_string(),
        key: RowKey::Block { slot: 100 },
        columns: vec![
            unsigned("parent_slot", 99),
            unsigned("block_height", 99),
            text("blockhash", &"A".repeat(32)),
            text("previous_blockhash", &"B".repeat(32)),
            signed("block_time", 1_700_000_000),
        ],
    }
}

fn transactions_row(transaction_index: u32, signers: &[[u8; 32]]) -> Row {
    let mut columns =
        vec![text("signature", "sig1"), unsigned("number_of_signers", signers.len() as u64)];
    for i in 0..8 {
        let signer = if i < signers.len() { text_of(signers[i]) } else { String::new() };
        columns.push(text(&format!("signer{i}"), &signer));
    }
    Row {
        table: "transactions".to_string(),
        key: RowKey::Transaction { slot: 100, transaction_index },
        columns,
    }
}

fn token_transfer_block() -> Block {
    block(vec![transaction(
        vec![OWNER_ONE, ACCOUNT_X, ACCOUNT_Y, TOKEN_PROGRAM_ID],
        vec![Instruction { program_id_index: 3, accounts: vec![1, 2, 0], data: vec![3, 42], stack_height: 1 }],
    )])
}

#[test]
fn single_top_level_transfer() {
    let batch = block_database_changes(&token_transfer_block(), &decode).unwrap();
    let expected_event = Row {
        table: "spl_token_transfer_events".to_string(),
        key: RowKey::Instruction { slot: 100, transaction_index: 0, instruction_index: 0 },
        columns: vec![
            text("source_address", &text_of(ACCOUNT_X)),
            text("source_owner", &text_of(OWNER_ONE)),
            text("destination_address", &text_of(ACCOUNT_Y)),
            text("destination_owner", &text_of(OWNER_TWO)),
            text("mint", &text_of(MINT)),
            text("authority", &text_of(OWNER_ONE)),
            unsigned("amount", 42),
            unsigned("source_pre_balance", 100),
            unsigned("destination_pre_balance", 7),
            text("parent_instruction_program_id", ""),
            signed("parent_instruction_index", -1),
            text("top_instruction_program_id", ""),
            signed("top_instruction_index", -1),
            text("partial_signature", "sig1"),
            text("partial_blockhash", "AAAA"),
        ],
    };
    assert_eq!(rows(&batch), vec![expected_event, transactions_row(0, &[OWNER_ONE]), blocks_row()]);
    assert!(batch.changes.iter().all(|c| c.operation == Operation::Create));
}

#[test]
fn cpi_transfers_under_an_amm_swap() {
    let input = block(vec![transaction(
        vec![OWNER_ONE, RAYDIUM_AMM_PROGRAM_ID, TOKEN_PROGRAM_ID],
        vec![instruction(1, 1), instruction(2, 2), instruction(2, 2)],
    )]);
    let batch = block_database_changes(&input, &decode).unwrap();
    assert_eq!(
        tables(&batch),
        vec![
            "raydium_amm_swap_events",
            "spl_token_transfer_events",
            "spl_token_transfer_events",
            "transactions",
            "blocks"
        ]
    );
    let all = rows(&batch);
    assert_eq!(column(&all[0], "parent_instruction_index"), &Value::I64(-1));
    assert_eq!(column(&all[0], "top_instruction_index"), &Value::I64(-1));
    assert_eq!(column(&all[0], "pool_pc_amount"), &Value::U64(0));
    assert_eq!(column(&all[0], "pool_coin_amount"), &Value::U64(5));
    let amm = text_of(RAYDIUM_AMM_PROGRAM_ID);
    assert_eq!(amm, "675kPX9MHTjS2zt1qfr1NYHuzeLXfQM9H24wFSUt1Mp8");
    for (i, row) in all[1..3].iter().enumerate() {
        assert_eq!(
            row.key,
            RowKey::Instruction { slot: 100, transaction_index: 0, instruction_index: i as i32 + 1 }
        );
        assert_eq!(column(row, "parent_instruction_index"), &Value::I64(0));
        assert_eq!(column(row, "top_instruction_index"), &Value::I64(0));
        assert_eq!(column(row, "parent_instruction_program_id"), &Value::Text(amm.clone()));
        assert_eq!(column(row, "top_instruction_program_id"), &Value::Text(amm.clone()));
    }
}

#[test]
fn failed_transaction_yields_no_row() {
    let mut failed = transaction(vec![OWNER_ONE, TOKEN_PROGRAM_ID], vec![instruction(1, 1)]);
    failed.meta.as_mut().unwrap().err = Some(vec![1]);
    let second = transaction(vec![OWNER_TWO, TOKEN_PROGRAM_ID], vec![instruction(1, 1)]);
    let batch = block_database_changes(&block(vec![failed, second]), &decode).unwrap();
    assert_eq!(tables(&batch), vec!["spl_token_transfer_events", "transactions", "blocks"]);
    let all = rows(&batch);
    assert_eq!(
        all[0].key,
        RowKey::Instruction { slot: 100, transaction_index: 1, instruction_index: 0 }
    );
    assert_eq!(all[1], transactions_row(1, &[OWNER_TWO]));
}

#[test]
fn failed_transaction_is_not_decoded_and_not_validated() {
    // The decoder would fail, and the trace is malformed, but nobody looks.
    let mut failed = transaction(vec![OWNER_ONE, TOKEN_PROGRAM_ID], vec![instruction(1, 0)]);
    failed.meta.as_mut().unwrap().err = Some(vec![]);
    let refuse = |_: DecodeRequest| -> Result<Option<Event>, String> { Err("no".to_string()) };
    let batch = block_database_changes(&block(vec![failed]), &refuse).unwrap();
    assert_eq!(rows(&batch), vec![blocks_row()]);
}

#[test]
fn only_unknown_programs_yield_no_transactions_row() {
    let input = block(vec![transaction(
        vec![OWNER_ONE, UNKNOWN_PROGRAM],
        vec![instruction(1, 1), instruction(1, 2), instruction(1, 1)],
    )]);
    let panic_if_asked =
        |_: DecodeRequest| -> Result<Option<Event>, String> { panic!("nothing to decode") };
    let batch = block_database_changes(&input, &panic_if_asked).unwrap();
    assert_eq!(rows(&batch), vec![blocks_row()]);
}

#[test]
fn recognized_instruction_without_event_yields_no_row() {
    let input = block(vec![transaction(
        vec![OWNER_ONE, solana_rows::programs::PUMPFUN_PROGRAM_ID],
        vec![instruction(1, 1)],
    )]);
    let batch = block_database_changes(&input, &decode).unwrap();
    assert_eq!(rows(&batch), vec![blocks_row()]);
}

#[test]
fn deep_nesting_records_parent_and_top() {
    let input = block(vec![transaction(
        vec![OWNER_ONE, SYSTEM_PROGRAM_ID, TOKEN_PROGRAM_ID, RAYDIUM_AMM_PROGRAM_ID],
        vec![instruction(3, 1), instruction(2, 2), instruction(1, 3), instruction(1, 4)],
    )]);
    let batch = block_database_changes(&input, &decode).unwrap();
    let all = rows(&batch);
    assert_eq!(all.len(), 6);
    let programs = [RAYDIUM_AMM_PROGRAM_ID, TOKEN_PROGRAM_ID, SYSTEM_PROGRAM_ID, SYSTEM_PROGRAM_ID];
    for i in 0..4 {
        assert_eq!(
            all[i].key,
            RowKey::Instruction { slot: 100, transaction_index: 0, instruction_index: i as i32 }
        );
        if i == 0 {
            assert_eq!(column(&all[i], "parent_instruction_index"), &Value::I64(-1));
            assert_eq!(column(&all[i], "top_instruction_index"), &Value::I64(-1));
            assert_eq!(column(&all[i], "top_instruction_program_id"), &Value::Text(String::new()));
        } else {
            assert_eq!(column(&all[i], "parent_instruction_index"), &Value::I64(i as i64 - 1));
            assert_eq!(
                column(&all[i], "parent_instruction_program_id"),
                &Value::Text(text_of(programs[i - 1]))
            );
            assert_eq!(column(&all[i], "top_instruction_index"), &Value::I64(0));
            assert_eq!(
                column(&all[i], "top_instruction_program_id"),
                &Value::Text(text_of(RAYDIUM_AMM_PROGRAM_ID))
            );
        }
    }
    assert_eq!(all[2].table, "system_program_transfer_events");
    assert_eq!(column(&all[2], "lamports"), &Value::U64(2));
    assert_eq!(column(&all[3], "lamports"), &Value::U64(3));
}

#[test]
fn metadata_passthrough_goes_to_the_shared_table() {
    let input = block(vec![transaction(
        vec![OWNER_ONE, MPL_TOKEN_METADATA_PROGRAM_ID],
        vec![instruction(1, 1)],
    )]);
    let batch = block_database_changes(&input, &decode).unwrap();
    let all = rows(&batch);
    assert_eq!(all.len(), 3);
    assert_eq!(all[0].table, "mpl_token_metadata_other_events");
    assert_eq!(all[0].columns[0], text("type", "sign_metadata"));
    assert_eq!(
        all[0].key,
        RowKey::Instruction { slot: 100, transaction_index: 0, instruction_index: 0 }
    );
}

#[test]
fn same_block_gives_the_same_batch() {
    let input = block(vec![
        transaction(
            vec![OWNER_ONE, RAYDIUM_AMM_PROGRAM_ID, TOKEN_PROGRAM_ID, UNKNOWN_PROGRAM],
            vec![instruction(1, 1), instruction(3, 2), instruction(2, 3), instruction(2, 1)],
        ),
        transaction(vec![OWNER_TWO, SYSTEM_PROGRAM_ID], vec![instruction(1, 1)]),
    ]);
    let first = block_database_changes(&input, &decode).unwrap();
    let second = block_database_changes(&input, &decode).unwrap();
    assert_eq!(first, second);
    for change in &first.changes {
        match change.row.key {
            RowKey::Block { slot } => assert_eq!(slot, 100),
            RowKey::Transaction { slot, .. } => assert_eq!(slot, 100),
            RowKey::Instruction { slot, .. } => assert_eq!(slot, 100),
        }
    }
}

#[test]
fn exactly_one_blocks_row_and_at_most_one_transactions_row_per_transaction() {
    let input = block(vec![
        transaction(vec![OWNER_ONE, TOKEN_PROGRAM_ID], vec![instruction(1, 1), instruction(1, 1)]),
        transaction(vec![OWNER_ONE, UNKNOWN_PROGRAM], vec![instruction(1, 1)]),
        transaction(vec![OWNER_ONE, SYSTEM_PROGRAM_ID], vec![instruction(1, 1)]),
    ]);
    let batch = block_database_changes(&input, &decode).unwrap();
    assert_eq!(
        tables(&batch),
        vec![
            "spl_token_transfer_events",
            "spl_token_transfer_events",
            "transactions",
            "system_program_transfer_events",
            "transactions",
            "blocks"
        ]
    );
    let all = rows(&batch);
    assert_eq!(all[2].key, RowKey::Transaction { slot: 100, transaction_index: 0 });
    assert_eq!(all[4].key, RowKey::Transaction { slot: 100, transaction_index: 2 });
    assert_eq!(all[5], blocks_row());
}

#[test]
fn unknown_programs_can_be_swapped_for_other_unknown_programs() {
    let with = |unknown: [u8; 32]| {
        block(vec![transaction(
            vec![OWNER_ONE, TOKEN_PROGRAM_ID, unknown],
            vec![instruction(1, 1), instruction(2, 2), instruction(2, 1), instruction(1, 1)],
        )])
    };
    let one = block_database_changes(&with(UNKNOWN_PROGRAM), &decode).unwrap();
    let other = block_database_changes(&with(OTHER_UNKNOWN_PROGRAM), &decode).unwrap();
    assert_eq!(one, other);
    assert_eq!(one.changes.len(), 4);
}

#[test]
fn unknown_parent_shows_in_the_lineage_of_its_children() {
    let input = block(vec![transaction(
        vec![OWNER_ONE, TOKEN_PROGRAM_ID, UNKNOWN_PROGRAM],
        vec![instruction(2, 1), instruction(1, 2)],
    )]);
    let batch = block_database_changes(&input, &decode).unwrap();
    let all = rows(&batch);
    assert_eq!(all.len(), 3);
    assert_eq!(column(&all[0], "parent_instruction_index"), &Value::I64(0));
    assert_eq!(
        column(&all[0], "parent_instruction_program_id"),
        &Value::Text(text_of(UNKNOWN_PROGRAM))
    );
}

#[test]
fn decoder_failure_names_signature_and_flat_index() {
    let input = block(vec![
        transaction(vec![OWNER_ONE, SYSTEM_PROGRAM_ID], vec![instruction(1, 1)]),
        transaction(
            vec![OWNER_ONE, SYSTEM_PROGRAM_ID, TOKEN_PROGRAM_ID],
            vec![instruction(1, 1), instruction(2, 2), instruction(2, 2)],
        ),
    ]);
    let asked = std::cell::RefCell::new(Vec::new());
    let failing = |request: DecodeRequest| -> Result<Option<Event>, String> {
        asked.borrow_mut().push((request.transaction_index, request.instruction_index));
        if request.family == ProgramFamily::SplToken {
            Err("truncated data".to_string())
        } else {
            decode(request)
        }
    };
    let error = block_database_changes(&input, &failing).unwrap_err();
    assert_eq!(
        error,
        Error::DecoderFailure {
            signature: "sig1".to_string(),
            instruction_index: 1,
            message: "truncated data".to_string(),
        }
    );
    // Nothing is asked after the failure.
    assert_eq!(*asked.borrow(), vec![(0, 0), (1, 0), (1, 1)]);
}

#[test]
fn decoder_is_asked_for_each_supported_instruction_in_order() {
    let input = block(vec![
        transaction(
            vec![OWNER_ONE, SYSTEM_PROGRAM_ID, UNKNOWN_PROGRAM, TOKEN_PROGRAM_ID],
            vec![instruction(1, 1), instruction(2, 1), instruction(3, 2)],
        ),
        transaction(vec![OWNER_ONE, RAYDIUM_AMM_PROGRAM_ID], vec![instruction(1, 1)]),
    ]);
    let asked = std::cell::RefCell::new(Vec::new());
    let recording = |request: DecodeRequest| -> Result<Option<Event>, String> {
        let transaction = &input.transactions[request.transaction_index as usize];
        assert!(std::ptr::eq(request.transaction, transaction));
        let instruction = &transaction.instructions[request.instruction_index as usize];
        assert!(std::ptr::eq(request.instruction, instruction));
        asked.borrow_mut().push((request.family, request.transaction_index, request.instruction_index));
        Ok(None)
    };
    let batch = block_database_changes(&input, &recording).unwrap();
    assert_eq!(rows(&batch), vec![blocks_row()]);
    assert_eq!(
        *asked.borrow(),
        vec![
            (ProgramFamily::SystemProgram, 0, 0),
            (ProgramFamily::SplToken, 0, 2),
            (ProgramFamily::RaydiumAmm, 1, 0),
        ]
    );
}

#[test]
fn decoder_can_read_the_instruction_and_resolve_the_transaction() {
    let decoder = |request: DecodeRequest| -> Result<Option<Event>, String> {
        let context = TransactionContext::build(request.transaction).map_err(|e| format!("{e:?}"))?;
        let data = &request.instruction.data;
        if data.first() != Some(&3) {
            return Ok(None);
        }
        let account = |at: usize| context.accounts[request.instruction.accounts[at] as usize].to_base58();
        let side = |at: usize| TokenAccount {
            address: account(at),
            owner: String::new(),
            mint: String::new(),
            pre_balance: None,
            post_balance: None,
        };
        Ok(Some(Event::SplToken(SplTokenEvent::Transfer(Transfer {
            source: side(0),
            destination: side(1),
            authority: account(2),
            amount: data[1] as u64,
        }))))
    };
    let batch = block_database_changes(&token_transfer_block(), &decoder).unwrap();
    let all = rows(&batch);
    assert_eq!(all.len(), 3);
    assert_eq!(column(&all[0], "source_address"), &Value::Text(text_of(ACCOUNT_X)));
    assert_eq!(column(&all[0], "destination_address"), &Value::Text(text_of(ACCOUNT_Y)));
    assert_eq!(column(&all[0], "authority"), &Value::Text(text_of(OWNER_ONE)));
    assert_eq!(column(&all[0], "amount"), &Value::U64(42));
    assert_eq!(column(&all[0], "source_pre_balance"), &Value::U64(0));
}

#[test]
fn missing_meta_is_bad_input() {
    let mut broken = transaction(vec![OWNER_ONE, TOKEN_PROGRAM_ID], vec![instruction(1, 1)]);
    broken.meta = None;
    let good = transaction(vec![OWNER_ONE, TOKEN_PROGRAM_ID], vec![instruction(1, 1)]);
    let error = block_database_changes(&block(vec![good, broken]), &decode).unwrap_err();
    assert_eq!(error, Error::BadInput { transaction_index: 1, kind: BadInput::MissingMeta });
}

#[test]
fn zero_stack_height_is_bad_input() {
    let broken = transaction(
        vec![OWNER_ONE, TOKEN_PROGRAM_ID],
        vec![instruction(1, 1), instruction(1, 0)],
    );
    let error = block_database_changes(&block(vec![broken]), &decode).unwrap_err();
    assert_eq!(error, Error::BadInput { transaction_index: 0, kind: BadInput::ZeroStackHeight });
}

#[test]
fn missing_signature_is_bad_input() {
    let mut broken = transaction(vec![OWNER_ONE, UNKNOWN_PROGRAM], vec![instruction(1, 1)]);
    broken.signatures.clear();
    let error = block_database_changes(&block(vec![broken]), &decode).unwrap_err();
    assert_eq!(error, Error::BadInput { transaction_index: 0, kind: BadInput::MissingSignature });
}

#[test]
fn inconsistent_account_table_is_bad_input() {
    let inconsistent = Error::BadInput { transaction_index: 0, kind: BadInput::InconsistentAccounts };

    let mut short_key = transaction(vec![OWNER_ONE, UNKNOWN_PROGRAM], vec![instruction(1, 1)]);
    short_key.account_keys[0].pop();
    assert_eq!(block_database_changes(&block(vec![short_key]), &decode).unwrap_err(), inconsistent);

    let mut short_loaded = transaction(vec![OWNER_ONE, UNKNOWN_PROGRAM], vec![instruction(1, 1)]);
    short_loaded.meta.as_mut().unwrap().loaded_readonly_addresses.push(vec![1, 2, 3]);
    assert_eq!(block_database_changes(&block(vec![short_loaded]), &decode).unwrap_err(), inconsistent);

    let program_outside = transaction(vec![OWNER_ONE, UNKNOWN_PROGRAM], vec![instruction(2, 1)]);
    assert_eq!(
        block_database_changes(&block(vec![program_outside]), &decode).unwrap_err(),
        inconsistent
    );

    let mut account_outside = transaction(vec![OWNER_ONE, UNKNOWN_PROGRAM], vec![instruction(1, 1)]);
    account_outside.instructions[0].accounts = vec![0, 2];
    assert_eq!(
        block_database_changes(&block(vec![account_outside]), &decode).unwrap_err(),
        inconsistent
    );

    let mut too_many_signers = transaction(vec![OWNER_ONE, UNKNOWN_PROGRAM], vec![instruction(1, 1)]);
    too_many_signers.num_required_signatures = 3;
    assert_eq!(
        block_database_changes(&block(vec![too_many_signers]), &decode).unwrap_err(),
        inconsistent
    );
}

#[test]
fn zero_stack_height_comes_before_unknown_accounts() {
    let broken = transaction(
        vec![OWNER_ONE, UNKNOWN_PROGRAM],
        vec![instruction(7, 1), instruction(1, 0)],
    );
    let error = block_database_changes(&block(vec![broken]), &decode).unwrap_err();
    assert_eq!(error, Error::BadInput { transaction_index: 0, kind: BadInput::ZeroStackHeight });
}

#[test]
fn loaded_addresses_extend_the_account_table() {
    let mut tx = transaction(vec![OWNER_ONE, UNKNOWN_PROGRAM], vec![instruction(3, 1), instruction(2, 2)]);
    let meta = tx.meta.as_mut().unwrap();
    meta.loaded_writable_addresses.push(SYSTEM_PROGRAM_ID.to_vec());
    meta.loaded_readonly_addresses.push(TOKEN_PROGRAM_ID.to_vec());
    let batch = block_database_changes(&block(vec![tx]), &decode).unwrap();
    assert_eq!(
        tables(&batch),
        vec![
            "spl_token_transfer_events",
            "system_program_transfer_events",
            "transactions",
            "blocks"
        ]
    );
    let all = rows(&batch);
    assert_eq!(
        column(&all[1], "parent_instruction_program_id"),
        &Value::Text(text_of(TOKEN_PROGRAM_ID))
    );
}

#[test]
fn transactions_row_lists_at_most_eight_signers() {
    let keys: Vec<[u8; 32]> = (1..=10u8).map(|i| [i; 32]).chain([TOKEN_PROGRAM_ID]).collect();
    let mut tx = transaction(keys.clone(), vec![instruction(10, 1)]);
    tx.num_required_signatures = 9;
    let batch = block_database_changes(&block(vec![tx]), &decode).unwrap();
    let all = rows(&batch);
    assert_eq!(all[1].table, "transactions");
    assert_eq!(all[1].columns.len(), 10);
    assert_eq!(column(&all[1], "number_of_signers"), &Value::U64(9));
    for i in 0..8 {
        assert_eq!(column(&all[1], &format!("signer{i}")), &Value::Text(text_of(keys[i])));
    }
}

#[test]
fn empty_block_yields_the_blocks_row() {
    let batch = block_database_changes(&block(vec![]), &decode).unwrap();
    assert_eq!(rows(&batch), vec![blocks_row()]);
}

#[test]
fn parse_transaction_stages_event_rows_and_reports_them() {
    let tx = transaction(
        vec![OWNER_ONE, TOKEN_PROGRAM_ID, UNKNOWN_PROGRAM],
        vec![instruction(2, 1), instruction(1, 2)],
    );
    let mut sink = RowSink::new();
    let changed = parse_transaction(&tx, 7, 5, &"hash".to_string(), &mut sink, &decode).unwrap();
    assert!(changed);
    assert_eq!(sink.len(), 1);
    let staged = rows(&sink.into_batch());
    assert_eq!(
        staged[0].key,
        RowKey::Instruction { slot: 5, transaction_index: 7, instruction_index: 1 }
    );
    assert_eq!(column(&staged[0], "partial_blockhash"), &Value::Text("hash".to_string()));

    let quiet = transaction(vec![OWNER_ONE, UNKNOWN_PROGRAM], vec![instruction(1, 1)]);
    let mut sink = RowSink::new();
    assert!(!parse_transaction(&quiet, 0, 5, &"hash".to_string(), &mut sink, &decode).unwrap());
    assert_eq!(sink.len(), 0);
}

#[test]
fn leading_takes_at_most_the_given_number_of_characters() {
    assert_eq!(leading("abcdef", 4), "abcd");
    assert_eq!(leading("abcd", 4), "abcd");
    assert_eq!(leading("abc", 4), "abc");
    assert_eq!(leading("", 4), "");
    assert_eq!(leading("äöüßx", 4), "äöüß");
}

#[test]
fn no_row_names_a_column_twice() {
    let input = block(vec![transaction(
        vec![
            OWNER_ONE,
            RAYDIUM_AMM_PROGRAM_ID,
            TOKEN_PROGRAM_ID,
            SYSTEM_PROGRAM_ID,
            MPL_TOKEN_METADATA_PROGRAM_ID,
        ],
        vec![instruction(1, 1), instruction(2, 2), instruction(3, 3), instruction(4, 1)],
    )]);
    let batch = block_database_changes(&input, &decode).unwrap();
    assert_eq!(batch.changes.len(), 6);
    for change in &batch.changes {
        let mut names: Vec<&str> = change.row.columns.iter().map(|c| c.name.as_str()).collect();
        let count = names.len();
        names.sort();
        names.dedup();
        assert_eq!(names.len(), count, "table {}", change.row.table);
    }
}
