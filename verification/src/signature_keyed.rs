//! A second, coarser layout of a block's rows: one row per block keyed by
//! slot, one row per transaction keyed by its signature, and event rows
//! keyed by signature and instruction position. The events of a block come
//! grouped by transaction, as a block-level decoder reports them.

use vstd::prelude::*;
use crate::block::Block;
use crate::error::{BadInput, Error};
use crate::events::raydium_amm::RaydiumAmmEvent;
use crate::events::spl_token::SplTokenEvent;
use crate::events::{text_or, value_or_text};
use crate::pubkey::{base58_encode, base58_text};
use crate::row::{texts, Column, ColumnView, Value, ValueView};

verus! {

/// The primary key of a row of this layout.
#[derive(Clone, Debug, PartialEq, Eq)]
pub enum SignatureKey {
    Slot { slot: u64 },
    Transaction { signature: String },
    Instruction { signature: String, instruction_index: u32 },
}

/// The mathematical value of a [`SignatureKey`].
pub enum SignatureKeyView {
    Slot { slot: u64 },
    Transaction { signature: Seq<char> },
    Instruction { signature: Seq<char>, instruction_index: u32 },
}

impl View for SignatureKey {
    type V = SignatureKeyView;

    open spec fn view(&self) -> SignatureKeyView {
        match *self {
            SignatureKey::Slot { slot } => SignatureKeyView::Slot { slot },
            SignatureKey::Transaction { signature } => SignatureKeyView::Transaction {
                signature: signature@,
            },
            SignatureKey::Instruction { signature, instruction_index } => {
                SignatureKeyView::Instruction { signature: signature@, instruction_index }
            },
        }
    }
}

/// One row of this layout: its table, its key, and its columns in the order
/// in which they were set.
#[derive(Clone, Debug, PartialEq, Eq)]
pub struct SignatureRow {
    pub table: String,
    pub key: SignatureKey,
    pub columns: Vec<Column>,
}

/// The mathematical value of a [`SignatureRow`].
pub struct SignatureRowView {
    pub table: Seq<char>,
    pub key: SignatureKeyView,
    pub columns: Seq<ColumnView>,
}

impl SignatureRowView {
    /// The row of a table that has a key and no column yet.
    pub open spec fn new(table: Seq<char>, key: SignatureKeyView) -> SignatureRowView {
        SignatureRowView { table, key, columns: Seq::empty() }
    }

    /// The row with one more column at its end.
    pub open spec fn set(self, name: Seq<char>, value: ValueView) -> SignatureRowView {
        SignatureRowView { columns: self.columns.push(ColumnView { name, value }), ..self }
    }

    pub open spec fn text(self, name: Seq<char>, value: Seq<char>) -> SignatureRowView {
        self.set(name, ValueView::Text(value))
    }

    pub open spec fn unsigned(self, name: Seq<char>, value: u64) -> SignatureRowView {
        self.set(name, ValueView::U64(value))
    }

    pub open spec fn signed(self, name: Seq<char>, value: i64) -> SignatureRowView {
        self.set(name, ValueView::I64(value))
    }
}

impl View for SignatureRow {
    type V = SignatureRowView;

    open spec fn view(&self) -> SignatureRowView {
        SignatureRowView {
            table: self.table@,
            key: self.key@,
            columns: self.columns@.map_values(|c: Column| c@),
        }
    }
}

/// The mathematical values of a list of rows.
pub open spec fn signature_row_views(rows: Seq<SignatureRow>) -> Seq<SignatureRowView> {
    rows.map_values(|r: SignatureRow| r@)
}

impl SignatureRow {
    /// A row of `table` with key `key` and no column yet.
    pub fn new(table: &str, key: SignatureKey) -> (row: SignatureRow)
        ensures
            row@ == SignatureRowView::new(table@, key@),
    {
        let row = SignatureRow { table: table.to_owned(), key, columns: Vec::new() };
        assert(row@.columns =~= Seq::empty());
        row
    }

    /// Appends the column `name` with `value`.
    pub fn set(&mut self, name: &str, value: Value)
        ensures
            final(self)@ == old(self)@.set(name@, value@),
    {
        let column = Column { name: name.to_owned(), value };
        self.columns.push(column);
        assert(self@.columns =~= old(self)@.columns.push(column@));
    }
}

/// What a block-level decoder reports for one instruction.
#[derive(Clone, Debug, PartialEq, Eq)]
pub struct InstructionEvent<E> {
    /// The position of the instruction in its transaction.
    pub instruction_index: u32,
    pub event: Option<E>,
}

/// What a block-level decoder reports for one transaction.
#[derive(Clone, Debug, PartialEq, Eq)]
pub struct TransactionEvents<E> {
    /// The base58 text of the transaction's signature.
    pub signature: String,
    /// The position of the transaction in the block.
    pub transaction_index: u32,
    pub events: Vec<InstructionEvent<E>>,
}

/// The row of an AMM event in the signature-keyed layout; no row for a
/// withdrawal of accrued fees.
pub open spec fn raydium_signature_row(
    event: RaydiumAmmEvent,
    signature: Seq<char>,
    instruction_index: u32,
    transaction_index: u32,
    slot: u64,
) -> Option<SignatureRowView> {
    let key = SignatureKeyView::Instruction { signature, instruction_index };
    match event {
        RaydiumAmmEvent::Swap(e) => Some(
            SignatureRowView::new("raydium_swap_events"@, key)
                .unsigned("transaction_index"@, transaction_index as u64)
                .unsigned("slot"@, slot)
                .text("amm"@, e.amm@)
                .text("user"@, e.user@)
                .unsigned("amount_in"@, e.amount_in)
                .unsigned("amount_out"@, e.amount_out)
                .text("mint_in"@, e.mint_in@)
                .text("mint_out"@, e.mint_out@),
        ),
        RaydiumAmmEvent::Initialize(e) => Some(
            SignatureRowView::new("raydium_initialize_events"@, key)
                .unsigned("transaction_index"@, transaction_index as u64)
                .unsigned("slot"@, slot)
                .text("amm"@, e.amm@)
                .text("user"@, e.user@)
                .unsigned("pc_init_amount"@, e.pc_init_amount)
                .unsigned("coin_init_amount"@, e.coin_init_amount)
                .unsigned("lp_init_amount"@, e.lp_init_amount)
                .text("pc_mint"@, e.pc_mint@)
                .text("coin_mint"@, e.coin_mint@)
                .text("lp_mint"@, e.lp_mint@),
        ),
        RaydiumAmmEvent::Deposit(e) => Some(
            SignatureRowView::new("raydium_deposit_events"@, key)
                .unsigned("transaction_index"@, transaction_index as u64)
                .unsigned("slot"@, slot)
                .text("amm"@, e.amm@)
                .text("user"@, e.user@)
                .unsigned("pc_amount"@, e.pc_amount)
                .unsigned("coin_amount"@, e.coin_amount)
                .unsigned("lp_amount"@, e.lp_amount)
                .text("pc_mint"@, e.pc_mint@)
                .text("coin_mint"@, e.coin_mint@)
                .text("lp_mint"@, e.lp_mint@),
        ),
        RaydiumAmmEvent::Withdraw(e) => Some(
            SignatureRowView::new("raydium_withdraw_events"@, key)
                .unsigned("transaction_index"@, transaction_index as u64)
                .unsigned("slot"@, slot)
                .text("amm"@, e.amm@)
                .text("user"@, e.user@)
                .unsigned("pc_amount"@, e.pc_amount)
                .unsigned("coin_amount"@, e.coin_amount)
                .unsigned("lp_amount"@, e.lp_amount)
                .text("pc_mint"@, e.pc_mint@)
                .text("coin_mint"@, e.coin_mint@)
                .text("lp_mint"@, e.lp_mint@),
        ),
        _ => None,
    }
}

/// Materializes an AMM event in the signature-keyed layout.
fn raydium_row(
    event: &RaydiumAmmEvent,
    signature: &String,
    instruction_index: u32,
    transaction_index: u32,
    slot: u64,
) -> (row: Option<SignatureRow>)
    ensures
        match raydium_signature_row(*event, signature@, instruction_index, transaction_index, slot) {
            Some(expected) => row matches Some(r) && r@ == expected,
            None => row is None,
        },
{
    let key = SignatureKey::Instruction { signature: signature.clone(), instruction_index };
    match event {
        RaydiumAmmEvent::Swap(e) => {
            let mut row = SignatureRow::new("raydium_swap_events", key);
            row.set("transaction_index", Value::U64(transaction_index as u64));
            row.set("slot", Value::U64(slot));
            row.set("amm", Value::Text(e.amm.clone()));
            row.set("user", Value::Text(e.user.clone()));
            row.set("amount_in", Value::U64(e.amount_in));
            row.set("amount_out", Value::U64(e.amount_out));
            row.set("mint_in", Value::Text(e.mint_in.clone()));
            row.set("mint_out", Value::Text(e.mint_out.clone()));
            Some(row)
        },
        RaydiumAmmEvent::Initialize(e) => {
            let mut row = SignatureRow::new("raydium_initialize_events", key);
            row.set("transaction_index", Value::U64(transaction_index as u64));
            row.set("slot", Value::U64(slot));
            row.set("amm", Value::Text(e.amm.clone()));
            row.set("user", Value::Text(e.user.clone()));
            row.set("pc_init_amount", Value::U64(e.pc_init_amount));
            row.set("coin_init_amount", Value::U64(e.coin_init_amount));
            row.set("lp_init_amount", Value::U64(e.lp_init_amount));
            row.set("pc_mint", Value::Text(e.pc_mint.clone()));
            row.set("coin_mint", Value::Text(e.coin_mint.clone()));
            row.set("lp_mint", Value::Text(e.lp_mint.clone()));
            Some(row)
        },
        RaydiumAmmEvent::Deposit(e) => {
            let mut row = SignatureRow::new("raydium_deposit_events", key);
            row.set("transaction_index", Value::U64(transaction_index as u64));
            row.set("slot", Value::U64(slot));
            row.set("amm", Value::Text(e.amm.clone()));
            row.set("user", Value::Text(e.user.clone()));
            row.set("pc_amount", Value::U64(e.pc_amount));
            row.set("coin_amount", Value::U64(e.coin_amount));
            row.set("lp_amount", Value::U64(e.lp_amount));
            row.set("pc_mint", Value::Text(e.pc_mint.clone()));
            row.set("coin_mint", Value::Text(e.coin_mint.clone()));
            row.set("lp_mint", Value::Text(e.lp_mint.clone()));
            Some(row)
        },
        RaydiumAmmEvent::Withdraw(e) => {
            let mut row = SignatureRow::new("raydium_withdraw_events", key);
            row.set("transaction_index", Value::U64(transaction_index as u64));
            row.set("slot", Value::U64(slot));
            row.set("amm", Value::Text(e.amm.clone()));
            row.set("user", Value::Text(e.user.clone()));
            row.set("pc_amount", Value::U64(e.pc_amount));
            row.set("coin_amount", Value::U64(e.coin_amount));
            row.set("lp_amount", Value::U64(e.lp_amount));
            row.set("pc_mint", Value::Text(e.pc_mint.clone()));
            row.set("coin_mint", Value::Text(e.coin_mint.clone()));
            row.set("lp_mint", Value::Text(e.lp_mint.clone()));
            Some(row)
        },
        _ => None,
    }
}

/// The row of a token program event in the signature-keyed layout; no row
/// for the synchronization of a wrapped native account.
pub open spec fn spl_token_signature_row(
    event: SplTokenEvent,
    signature: Seq<char>,
    instruction_index: u32,
    transaction_index: u32,
    slot: u64,
) -> Option<SignatureRowView> {
    let key = SignatureKeyView::Instruction { signature, instruction_index };
    match event {
        SplTokenEvent::InitializeMint(e) => Some(
            SignatureRowView::new("spl_token_initialize_mint_events"@, key)
                .unsigned("transaction_index"@, transaction_index as u64)
                .unsigned("slot"@, slot)
                .text("mint"@, e.mint@)
                .unsigned("decimals"@, e.decimals as u64)
                .text("mint_authority"@, e.mint_authority@)
                .text("freeze_authority"@, text_or(e.freeze_authority, "null"@)),
        ),
        SplTokenEvent::InitializeAccount(e) => Some(
            SignatureRowView::new("spl_token_initialize_account_events"@, key)
                .unsigned("transaction_index"@, transaction_index as u64)
                .unsigned("slot"@, slot)
                .text("account_address"@, e.account.address@)
                .text("account_owner"@, e.account.owner@)
                .text("mint"@, e.account.mint@),
        ),
        SplTokenEvent::InitializeMultisig(e) => Some(
            SignatureRowView::new("spl_token_initialize_multisig_events"@, key)
                .unsigned("transaction_index"@, transaction_index as u64)
                .unsigned("slot"@, slot)
                .text("multisig"@, e.multisig@)
                .set("signers"@, ValueView::TextArray(texts(e.signers@))),
        ),
        SplTokenEvent::Transfer(e) => Some(
            SignatureRowView::new("spl_token_transfer_events"@, key)
                .unsigned("transaction_index"@, transaction_index as u64)
                .unsigned("slot"@, slot)
                .text("source_address"@, e.source.address@)
                .text("source_owner"@, e.source.owner@)
                .text("destination_address"@, e.destination.address@)
                .text("destination_owner"@, e.destination.owner@)
                .text("mint"@, e.source.mint@)
                .text("authority"@, e.authority@)
                .unsigned("amount"@, e.amount),
        ),
        SplTokenEvent::Approve(e) => Some(
            SignatureRowView::new("spl_token_approve_events"@, key)
                .unsigned("transaction_index"@, transaction_index as u64)
                .unsigned("slot"@, slot)
                .text("source_address"@, e.source.address@)
                .text("source_owner"@, e.source.owner@)
                .text("mint"@, e.source.mint@)
                .text("delegate"@, e.delegate@)
                .unsigned("amount"@, e.amount),
        ),
        SplTokenEvent::Revoke(e) => Some(
            SignatureRowView::new("spl_token_revoke_events"@, key)
                .unsigned("transaction_index"@, transaction_index as u64)
                .unsigned("slot"@, slot)
                .text("source_address"@, e.source.address@)
                .text("source_owner"@, e.source.owner@)
                .text("mint"@, e.source.mint@),
        ),
        SplTokenEvent::SetAuthority(e) => Some(
            SignatureRowView::new("spl_token_set_authority_events"@, key)
                .unsigned("transaction_index"@, transaction_index as u64)
                .unsigned("slot"@, slot)
                .text("mint"@, e.mint@)
                .text("authority_type"@, e.authority_type@)
                .text("new_authority"@, text_or(e.new_authority, "null"@)),
        ),
        SplTokenEvent::MintTo(e) => Some(
            SignatureRowView::new("spl_token_mint_to_events"@, key)
                .unsigned("transaction_index"@, transaction_index as u64)
                .unsigned("slot"@, slot)
                .text("destination_address"@, e.destination.address@)
                .text("destination_owner"@, e.destination.owner@)
                .text("mint"@, e.mint@)
                .text("mint_authority"@, e.mint_authority@)
                .unsigned("amount"@, e.amount),
        ),
        SplTokenEvent::Burn(e) => Some(
            SignatureRowView::new("spl_token_burn_events"@, key)
                .unsigned("transaction_index"@, transaction_index as u64)
                .unsigned("slot"@, slot)
                .text("source_address"@, e.source.address@)
                .text("source_owner"@, e.source.owner@)
                .text("mint"@, e.source.mint@)
                .unsigned("amount"@, e.amount)
                .text("authority"@, e.authority@),
        ),
        SplTokenEvent::CloseAccount(e) => Some(
            SignatureRowView::new("spl_token_close_account_events"@, key)
                .unsigned("transaction_index"@, transaction_index as u64)
                .unsigned("slot"@, slot)
                .text("source_address"@, e.source.address@)
                .text("source_owner"@, e.source.owner@)
                .text("destination"@, e.destination@)
                .text("mint"@, e.source.mint@),
        ),
        SplTokenEvent::FreezeAccount(e) => Some(
            SignatureRowView::new("spl_token_freeze_account_events"@, key)
                .unsigned("transaction_index"@, transaction_index as u64)
                .unsigned("slot"@, slot)
                .text("source_address"@, e.source.address@)
                .text("source_owner"@, e.source.owner@)
                .text("mint"@, e.source.mint@)
                .text("freeze_authority"@, e.freeze_authority@),
        ),
        SplTokenEvent::ThawAccount(e) => Some(
            SignatureRowView::new("spl_token_thaw_account_events"@, key)
                .unsigned("transaction_index"@, transaction_index as u64)
                .unsigned("slot"@, slot)
                .text("source_address"@, e.source.address@)
                .text("source_owner"@, e.source.owner@)
                .text("mint"@, e.source.mint@)
                .text("freeze_authority"@, e.freeze_authority@),
        ),
        SplTokenEvent::InitializeImmutableOwner(e) => Some(
            SignatureRowView::new("spl_token_initialize_immutable_owner_events"@, key)
                .unsigned("transaction_index"@, transaction_index as u64)
                .unsigned("slot"@, slot)
                .text("account_address"@, e.account.address@)
                .text("account_owner"@, e.account.owner@)
                .text("mint"@, e.account.mint@),
        ),
        _ => None,
    }
}

/// Materializes a token program event in the signature-keyed layout.
fn spl_token_row(
    event: &SplTokenEvent,
    signature: &String,
    instruction_index: u32,
    transaction_index: u32,
    slot: u64,
) -> (row: Option<SignatureRow>)
    ensures
        match spl_token_signature_row(*event, signature@, instruction_index, transaction_index, slot) {
            Some(expected) => row matches Some(r) && r@ == expected,
            None => row is None,
        },
{
    let key = SignatureKey::Instruction { signature: signature.clone(), instruction_index };
    match event {
        SplTokenEvent::InitializeMint(e) => {
            let mut row = SignatureRow::new("spl_token_initialize_mint_events", key);
            row.set("transaction_index", Value::U64(transaction_index as u64));
            row.set("slot", Value::U64(slot));
            row.set("mint", Value::Text(e.mint.clone()));
            row.set("decimals", Value::U64(e.decimals as u64));
            row.set("mint_authority", Value::Text(e.mint_authority.clone()));
            row.set("freeze_authority", Value::Text(value_or_text(e.freeze_authority.clone(), "null")));
            Some(row)
        },
        SplTokenEvent::InitializeAccount(e) => {
            let mut row = SignatureRow::new("spl_token_initialize_account_events", key);
            row.set("transaction_index", Value::U64(transaction_index as u64));
            row.set("slot", Value::U64(slot));
            row.set("account_address", Value::Text(e.account.address.clone()));
            row.set("account_owner", Value::Text(e.account.owner.clone()));
            row.set("mint", Value::Text(e.account.mint.clone()));
            Some(row)
        },
        SplTokenEvent::InitializeMultisig(e) => {
            let mut row = SignatureRow::new("spl_token_initialize_multisig_events", key);
            row.set("transaction_index", Value::U64(transaction_index as u64));
            row.set("slot", Value::U64(slot));
            row.set("multisig", Value::Text(e.multisig.clone()));
            row.set("signers", Value::TextArray(e.signers.clone()));
            Some(row)
        },
        SplTokenEvent::Transfer(e) => {
            let mut row = SignatureRow::new("spl_token_transfer_events", key);
            row.set("transaction_index", Value::U64(transaction_index as u64));
            row.set("slot", Value::U64(slot));
            row.set("source_address", Value::Text(e.source.address.clone()));
            row.set("source_owner", Value::Text(e.source.owner.clone()));
            row.set("destination_address", Value::Text(e.destination.address.clone()));
            row.set("destination_owner", Value::Text(e.destination.owner.clone()));
            row.set("mint", Value::Text(e.source.mint.clone()));
            row.set("authority", Value::Text(e.authority.clone()));
            row.set("amount", Value::U64(e.amount));
            Some(row)
        },
        SplTokenEvent::Approve(e) => {
            let mut row = SignatureRow::new("spl_token_approve_events", key);
            row.set("transaction_index", Value::U64(transaction_index as u64));
            row.set("slot", Value::U64(slot));
            row.set("source_address", Value::Text(e.source.address.clone()));
            row.set("source_owner", Value::Text(e.source.owner.clone()));
            row.set("mint", Value::Text(e.source.mint.clone()));
            row.set("delegate", Value::Text(e.delegate.clone()));
            row.set("amount", Value::U64(e.amount));
            Some(row)
        },
        SplTokenEvent::Revoke(e) => {
            let mut row = SignatureRow::new("spl_token_revoke_events", key);
            row.set("transaction_index", Value::U64(transaction_index as u64));
            row.set("slot", Value::U64(slot));
            row.set("source_address", Value::Text(e.source.address.clone()));
            row.set("source_owner", Value::Text(e.source.owner.clone()));
            row.set("mint", Value::Text(e.source.mint.clone()));
            Some(row)
        },
        SplTokenEvent::SetAuthority(e) => {
            let mut row = SignatureRow::new("spl_token_set_authority_events", key);
            row.set("transaction_index", Value::U64(transaction_index as u64));
            row.set("slot", Value::U64(slot));
            row.set("mint", Value::Text(e.mint.clone()));
            row.set("authority_type", Value::Text(e.authority_type.clone()));
            row.set("new_authority", Value::Text(value_or_text(e.new_authority.clone(), "null")));
            Some(row)
        },
        SplTokenEvent::MintTo(e) => {
            let mut row = SignatureRow::new("spl_token_mint_to_events", key);
            row.set("transaction_index", Value::U64(transaction_index as u64));
            row.set("slot", Value::U64(slot));
            row.set("destination_address", Value::Text(e.destination.address.clone()));
            row.set("destination_owner", Value::Text(e.destination.owner.clone()));
            row.set("mint", Value::Text(e.mint.clone()));
            row.set("mint_authority", Value::Text(e.mint_authority.clone()));
            row.set("amount", Value::U64(e.amount));
            Some(row)
        },
        SplTokenEvent::Burn(e) => {
            let mut row = SignatureRow::new("spl_token_burn_events", key);
            row.set("transaction_index", Value::U64(transaction_index as u64));
            row.set("slot", Value::U64(slot));
            row.set("source_address", Value::Text(e.source.address.clone()));
            row.set("source_owner", Value::Text(e.source.owner.clone()));
            row.set("mint", Value::Text(e.source.mint.clone()));
            row.set("amount", Value::U64(e.amount));
            row.set("authority", Value::Text(e.authority.clone()));
            Some(row)
        },
        SplTokenEvent::CloseAccount(e) => {
            let mut row = SignatureRow::new("spl_token_close_account_events", key);
            row.set("transaction_index", Value::U64(transaction_index as u64));
            row.set("slot", Value::U64(slot));
            row.set("source_address", Value::Text(e.source.address.clone()));
            row.set("source_owner", Value::Text(e.source.owner.clone()));
            row.set("destination", Value::Text(e.destination.clone()));
            row.set("mint", Value::Text(e.source.mint.clone()));
            Some(row)
        },
        SplTokenEvent::FreezeAccount(e) => {
            let mut row = SignatureRow::new("spl_token_freeze_account_events", key);
            row.set("transaction_index", Value::U64(transaction_index as u64));
            row.set("slot", Value::U64(slot));
            row.set("source_address", Value::Text(e.source.address.clone()));
            row.set("source_owner", Value::Text(e.source.owner.clone()));
            row.set("mint", Value::Text(e.source.mint.clone()));
            row.set("freeze_authority", Value::Text(e.freeze_authority.clone()));
            Some(row)
        },
        SplTokenEvent::ThawAccount(e) => {
            let mut row = SignatureRow::new("spl_token_thaw_account_events", key);
            row.set("transaction_index", Value::U64(transaction_index as u64));
            row.set("slot", Value::U64(slot));
            row.set("source_address", Value::Text(e.source.address.clone()));
            row.set("source_owner", Value::Text(e.source.owner.clone()));
            row.set("mint", Value::Text(e.source.mint.clone()));
            row.set("freeze_authority", Value::Text(e.freeze_authority.clone()));
            Some(row)
        },
        SplTokenEvent::InitializeImmutableOwner(e) => {
            let mut row = SignatureRow::new("spl_token_initialize_immutable_owner_events", key);
            row.set("transaction_index", Value::U64(transaction_index as u64));
            row.set("slot", Value::U64(slot));
            row.set("account_address", Value::Text(e.account.address.clone()));
            row.set("account_owner", Value::Text(e.account.owner.clone()));
            row.set("mint", Value::Text(e.account.mint.clone()));
            Some(row)
        },
        _ => None,
    }
}
/// The row of the `blocks` table in the signature-keyed layout.
pub open spec fn blocks_signature_row(block: Block) -> SignatureRowView {
    SignatureRowView::new("blocks"@, SignatureKeyView::Slot { slot: block.slot }).unsigned(
        "height"@,
        block.block_height,
    ).text("hash"@, block.blockhash@).signed("time"@, block.block_time)
}

/// The one row of the `blocks` table: the block's height, hash and time, keyed by its slot.
pub fn blocks_table_changes(block: &Block) -> (rows: Vec<SignatureRow>)
    ensures
        signature_row_views(rows@) == seq![blocks_signature_row(*block)],
{
    let mut row = SignatureRow::new("blocks", SignatureKey::Slot { slot: block.slot });
    row.set("height", Value::U64(block.block_height));
    row.set("hash", Value::Text(block.blockhash.clone()));
    row.set("time", Value::I64(block.block_time));
    let mut rows: Vec<SignatureRow> = Vec::new();
    rows.push(row);
    rows
}

/// The row of the `transactions` table for transaction `t` of a block in the
/// signature-keyed layout.
pub open spec fn transaction_signature_row(block: Block, t: int) -> SignatureRowView {
    SignatureRowView::new(
        "transactions"@,
        SignatureKeyView::Transaction {
            signature: base58_text(block.transactions@[t].signatures@[0]@),
        },
    ).unsigned("transaction_index"@, t as u64).unsigned("slot"@, block.slot)
}

/// One row of the `transactions` table for every transaction of the block,
/// failed or not, in block order: its position in the block and the slot,
/// keyed by the base58 text of its first signature. A transaction without a
/// signature is malformed; the first such transaction is the error.
pub fn transactions_table_changes(block: &Block) -> (result: Result<Vec<SignatureRow>, Error>)
    requires
        block.transactions@.len() <= u32::MAX,
    ensures
        match result {
            Ok(rows) => {
                &&& forall|t: int|
                    0 <= t < block.transactions@.len() ==> (
                    #[trigger] block.transactions@[t]).signatures@.len() > 0
                &&& signature_row_views(rows@) == Seq::new(
                    block.transactions@.len(),
                    |t: int| transaction_signature_row(*block, t),
                )
            },
            Err(error) => {
                &&& error@ is BadInput
                &&& error@->kind == BadInput::MissingSignature
                &&& error@->transaction_index < block.transactions@.len()
                &&& block.transactions@[error@->transaction_index as int].signatures@.len() == 0
                &&& forall|t: int|
                    0 <= t < error@->transaction_index ==> (
                    #[trigger] block.transactions@[t]).signatures@.len() > 0
            },
        },
{
    let mut rows: Vec<SignatureRow> = Vec::new();
    let count = block.transactions.len();
    let mut t: usize = 0;
    while t < count
        invariant
            t <= count == block.transactions@.len() <= u32::MAX,
            forall|u: int|
                0 <= u < t ==> (#[trigger] block.transactions@[u]).signatures@.len() > 0,
            signature_row_views(rows@) == Seq::new(
                t as nat,
                |u: int| transaction_signature_row(*block, u),
            ),
        decreases count - t,
    {
        let transaction = &block.transactions[t];
        if transaction.signatures.len() == 0 {
            return Err(
                Error::BadInput { transaction_index: t as u32, kind: BadInput::MissingSignature },
            );
        }
        let signature = base58_encode(transaction.signatures[0].as_slice());
        let mut row = SignatureRow::new("transactions", SignatureKey::Transaction { signature });
        row.set("transaction_index", Value::U64(t as u64));
        row.set("slot", Value::U64(block.slot));
        let ghost prior = rows@;
        rows.push(row);
        assert(signature_row_views(rows@) =~= signature_row_views(prior).push(row@));
        t += 1;
    }
    Ok(rows)
}

/// The rows of the first `upto` AMM events of one transaction, in order.
pub open spec fn raydium_event_rows(
    transaction: TransactionEvents<RaydiumAmmEvent>,
    slot: u64,
    upto: int,
) -> Seq<SignatureRowView>
    decreases upto,
{
    if upto <= 0 {
        Seq::empty()
    } else {
        let rest = raydium_event_rows(transaction, slot, upto - 1);
        let item = transaction.events@[upto - 1];
        match item.event {
            Some(event) => match raydium_signature_row(
                event,
                transaction.signature@,
                item.instruction_index,
                transaction.transaction_index,
                slot,
            ) {
                Some(row) => rest.push(row),
                None => rest,
            },
            None => rest,
        }
    }
}

/// The rows of the AMM events of the first `upto` transactions, in order.
pub open spec fn raydium_rows(
    transactions: Seq<TransactionEvents<RaydiumAmmEvent>>,
    slot: u64,
    upto: int,
) -> Seq<SignatureRowView>
    decreases upto,
{
    if upto <= 0 {
        Seq::empty()
    } else {
        raydium_rows(transactions, slot, upto - 1) + raydium_event_rows(
            transactions[upto - 1],
            slot,
            transactions[upto - 1].events@.len() as int,
        )
    }
}

/// The rows of the AMM events of a block: one row for every swap,
/// initialization, deposit and withdrawal, in the order in which the
/// transactions and their events are given, keyed by the transaction's
/// signature and the instruction's position.
pub fn raydium_tables_changes(
    slot: u64,
    transactions: &Vec<TransactionEvents<RaydiumAmmEvent>>,
) -> (rows: Vec<SignatureRow>)
    ensures
        signature_row_views(rows@) == raydium_rows(transactions@, slot, transactions@.len() as int),
{
    let mut rows: Vec<SignatureRow> = Vec::new();
    let mut t: usize = 0;
    while t < transactions.len()
        invariant
            t <= transactions@.len(),
            signature_row_views(rows@) == raydium_rows(transactions@, slot, t as int),
        decreases transactions@.len() - t,
    {
        let transaction = &transactions[t];
        let ghost before = signature_row_views(rows@);
        let mut k: usize = 0;
        while k < transaction.events.len()
            invariant
                k <= transaction.events@.len(),
                signature_row_views(rows@) == before + raydium_event_rows(
                    *transaction,
                    slot,
                    k as int,
                ),
            decreases transaction.events@.len() - k,
        {
            let item = &transaction.events[k];
            match &item.event {
                Some(event) => {
                    match raydium_row(
                        event,
                        &transaction.signature,
                        item.instruction_index,
                        transaction.transaction_index,
                        slot,
                    ) {
                        Some(row) => {
                            let ghost prior = rows@;
                            rows.push(row);
                            assert(signature_row_views(rows@) =~= signature_row_views(prior).push(
                                row@,
                            ));
                        },
                        None => {},
                    }
                },
                None => {},
            }
            k += 1;
        }
        t += 1;
    }
    rows
}

/// The rows of the first `upto` token program events of one transaction, in order.
pub open spec fn spl_token_event_rows(
    transaction: TransactionEvents<SplTokenEvent>,
    slot: u64,
    upto: int,
) -> Seq<SignatureRowView>
    decreases upto,
{
    if upto <= 0 {
        Seq::empty()
    } else {
        let rest = spl_token_event_rows(transaction, slot, upto - 1);
        let item = transaction.events@[upto - 1];
        match item.event {
            Some(event) => match spl_token_signature_row(
                event,
                transaction.signature@,
                item.instruction_index,
                transaction.transaction_index,
                slot,
            ) {
                Some(row) => rest.push(row),
                None => rest,
            },
            None => rest,
        }
    }
}

/// The rows of the token program events of the first `upto` transactions, in order.
pub open spec fn spl_token_rows(
    transactions: Seq<TransactionEvents<SplTokenEvent>>,
    slot: u64,
    upto: int,
) -> Seq<SignatureRowView>
    decreases upto,
{
    if upto <= 0 {
        Seq::empty()
    } else {
        spl_token_rows(transactions, slot, upto - 1) + spl_token_event_rows(
            transactions[upto - 1],
            slot,
            transactions[upto - 1].events@.len() as int,
        )
    }
}

/// The rows of the token program events of a block: one row for every event
/// of a kind that has a table in this layout, in the order in which the
/// transactions and their events are given, keyed by the transaction's
/// signature and the instruction's position.
pub fn spl_token_tables_changes(
    slot: u64,
    transactions: &Vec<TransactionEvents<SplTokenEvent>>,
) -> (rows: Vec<SignatureRow>)
    ensures
        signature_row_views(rows@) == spl_token_rows(
            transactions@,
            slot,
            transactions@.len() as int,
        ),
{
    let mut rows: Vec<SignatureRow> = Vec::new();
    let mut t: usize = 0;
    while t < transactions.len()
        invariant
            t <= transactions@.len(),
            signature_row_views(rows@) == spl_token_rows(transactions@, slot, t as int),
        decreases transactions@.len() - t,
    {
        let transaction = &transactions[t];
        let ghost before = signature_row_views(rows@);
        let mut k: usize = 0;
        while k < transaction.events.len()
            invariant
                k <= transaction.events@.len(),
                signature_row_views(rows@) == before + spl_token_event_rows(
                    *transaction,
                    slot,
                    k as int,
                ),
            decreases transaction.events@.len() - k,
        {
            let item = &transaction.events[k];
            match &item.event {
                Some(event) => {
                    match spl_token_row(
                        event,
                        &transaction.signature,
                        item.instruction_index,
                        transaction.transaction_index,
                        slot,
                    ) {
                        Some(row) => {
                            let ghost prior = rows@;
                            rows.push(row);
                            assert(signature_row_views(rows@) =~= signature_row_views(prior).push(
                                row@,
                            ));
                        },
                        None => {},
                    }
                },
                None => {},
            }
            k += 1;
        }
        t += 1;
    }
    rows
}

/// The rows of a block in the signature-keyed layout: the row of the
/// `blocks` table, the rows of the `transactions` table, the rows of the AMM
/// events and the rows of the token program events, in this order. The
/// events are what a block-level decoder reported for the block.
pub fn solana_database_changes(
    block: &Block,
    raydium: &Vec<TransactionEvents<RaydiumAmmEvent>>,
    spl_token: &Vec<TransactionEvents<SplTokenEvent>>,
) -> (result: Result<Vec<SignatureRow>, Error>)
    requires
        block.transactions@.len() <= u32::MAX,
    ensures
        match result {
            Ok(rows) => {
                &&& forall|t: int|
                    0 <= t < block.transactions@.len() ==> (
                    #[trigger] block.transactions@[t]).signatures@.len() > 0
                &&& signature_row_views(rows@) == seq![blocks_signature_row(*block)] + Seq::new(
                    block.transactions@.len(),
                    |t: int| transaction_signature_row(*block, t),
                ) + raydium_rows(raydium@, block.slot, raydium@.len() as int) + spl_token_rows(
                    spl_token@,
                    block.slot,
                    spl_token@.len() as int,
                )
            },
            Err(error) => {
                &&& error@ is BadInput
                &&& error@->kind == BadInput::MissingSignature
                &&& error@->transaction_index < block.transactions@.len()
                &&& block.transactions@[error@->transaction_index as int].signatures@.len() == 0
                &&& forall|t: int|
                    0 <= t < error@->transaction_index ==> (
                    #[trigger] block.transactions@[t]).signatures@.len() > 0
            },
        },
{
    let mut rows = blocks_table_changes(block);
    let mut transactions = match transactions_table_changes(block) {
        Ok(transactions) => transactions,
        Err(error) => {
            return Err(error);
        },
    };
    let mut raydium_events = raydium_tables_changes(block.slot, raydium);
    let mut spl_token_events = spl_token_tables_changes(block.slot, spl_token);
    rows.append(&mut transactions);
    rows.append(&mut raydium_events);
    rows.append(&mut spl_token_events);
    Ok(rows)
}

} // verus!
