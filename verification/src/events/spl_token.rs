//! Events of the fungible-token program and the rows that they yield.

use vstd::prelude::*;
use crate::events::{or_zero, text_or, value_or_text, value_or_zero};
use crate::row::{Row, RowKey, RowView};

verus! {

/// A token account as an event saw it.
#[derive(Clone, Debug, PartialEq, Eq)]
pub struct TokenAccount {
    pub address: String,
    pub owner: String,
    pub mint: String,
    /// The balance before the transaction, where one was recorded.
    pub pre_balance: Option<u64>,
    /// The balance after the transaction, where one was recorded.
    pub post_balance: Option<u64>,
}

/// A mint was initialized.
#[derive(Clone, Debug, PartialEq, Eq)]
pub struct InitializeMint {
    pub mint: String,
    pub decimals: u32,
    pub mint_authority: String,
    pub freeze_authority: Option<String>,
}

/// A token account was initialized.
#[derive(Clone, Debug, PartialEq, Eq)]
pub struct InitializeAccount {
    pub account: TokenAccount,
}

/// A multisignature account was initialized.
#[derive(Clone, Debug, PartialEq, Eq)]
pub struct InitializeMultisig {
    pub multisig: String,
    pub signers: Vec<String>,
    /// How many of the signers must sign.
    pub m: u32,
}

/// Tokens moved from one account to another.
#[derive(Clone, Debug, PartialEq, Eq)]
pub struct Transfer {
    pub source: TokenAccount,
    pub destination: TokenAccount,
    pub authority: String,
    pub amount: u64,
}

/// A delegate was approved for an amount.
#[derive(Clone, Debug, PartialEq, Eq)]
pub struct Approve {
    pub source: TokenAccount,
    pub delegate: String,
    pub amount: u64,
}

/// The delegate of an account was revoked.
#[derive(Clone, Debug, PartialEq, Eq)]
pub struct Revoke {
    pub source: TokenAccount,
}

/// An authority of a mint or an account changed.
#[derive(Clone, Debug, PartialEq, Eq)]
pub struct SetAuthority {
    pub mint: String,
    /// The name of the kind of authority that changed.
    pub authority_type: String,
    pub new_authority: Option<String>,
}

/// New tokens were minted into an account.
#[derive(Clone, Debug, PartialEq, Eq)]
pub struct MintTo {
    pub destination: TokenAccount,
    pub mint: String,
    pub mint_authority: String,
    pub amount: u64,
}

/// Tokens of an account were burned.
#[derive(Clone, Debug, PartialEq, Eq)]
pub struct Burn {
    pub source: TokenAccount,
    pub authority: String,
    pub amount: u64,
}

/// A token account was closed.
#[derive(Clone, Debug, PartialEq, Eq)]
pub struct CloseAccount {
    pub source: TokenAccount,
    pub destination: String,
}

/// A token account was frozen.
#[derive(Clone, Debug, PartialEq, Eq)]
pub struct FreezeAccount {
    pub source: TokenAccount,
    pub freeze_authority: String,
}

/// A frozen token account was thawed.
#[derive(Clone, Debug, PartialEq, Eq)]
pub struct ThawAccount {
    pub source: TokenAccount,
    pub freeze_authority: String,
}

/// The owner of a token account was made immutable.
#[derive(Clone, Debug, PartialEq, Eq)]
pub struct InitializeImmutableOwner {
    pub account: TokenAccount,
}

/// The balance of a wrapped native account was synchronized.
#[derive(Clone, Debug, PartialEq, Eq)]
pub struct SyncNative {
    pub account: TokenAccount,
}

/// What one token program instruction did.
#[derive(Clone, Debug, PartialEq, Eq)]
pub enum SplTokenEvent {
    InitializeMint(InitializeMint),
    InitializeAccount(InitializeAccount),
    InitializeMultisig(InitializeMultisig),
    Transfer(Transfer),
    Approve(Approve),
    Revoke(Revoke),
    SetAuthority(SetAuthority),
    MintTo(MintTo),
    Burn(Burn),
    CloseAccount(CloseAccount),
    FreezeAccount(FreezeAccount),
    ThawAccount(ThawAccount),
    InitializeImmutableOwner(InitializeImmutableOwner),
    SyncNative(SyncNative),
}

/// The row of a token program event. Balance columns come from the account
/// that their name says.
pub open spec fn spl_token_row(event: SplTokenEvent, key: RowKey) -> RowView {
    match event {
        SplTokenEvent::InitializeMint(e) => RowView::new("spl_token_initialize_mint_events"@, key)
            .text("mint"@, e.mint@)
            .unsigned("decimals"@, e.decimals as u64)
            .text("mint_authority"@, e.mint_authority@)
            .text("freeze_authority"@, text_or(e.freeze_authority, "null"@)),
        SplTokenEvent::InitializeAccount(e) => RowView::new("spl_token_initialize_account_events"@, key)
            .text("account_address"@, e.account.address@)
            .text("account_owner"@, e.account.owner@)
            .text("mint"@, e.account.mint@),
        SplTokenEvent::InitializeMultisig(e) => RowView::new("spl_token_initialize_multisig_events"@, key)
            .text("multisig"@, e.multisig@)
            .unsigned("m"@, e.m as u64),
        SplTokenEvent::Transfer(e) => RowView::new("spl_token_transfer_events"@, key)
            .text("source_address"@, e.source.address@)
            .text("source_owner"@, e.source.owner@)
            .text("destination_address"@, e.destination.address@)
            .text("destination_owner"@, e.destination.owner@)
            .text("mint"@, e.source.mint@)
            .text("authority"@, e.authority@)
            .unsigned("amount"@, e.amount)
            .unsigned("source_pre_balance"@, or_zero(e.source.pre_balance))
            .unsigned("destination_pre_balance"@, or_zero(e.destination.pre_balance)),
        SplTokenEvent::Approve(e) => RowView::new("spl_token_approve_events"@, key)
            .text("source_address"@, e.source.address@)
            .text("source_owner"@, e.source.owner@)
            .text("mint"@, e.source.mint@)
            .text("delegate"@, e.delegate@)
            .unsigned("amount"@, e.amount),
        SplTokenEvent::Revoke(e) => RowView::new("spl_token_revoke_events"@, key)
            .text("source_address"@, e.source.address@)
            .text("source_owner"@, e.source.owner@)
            .text("mint"@, e.source.mint@),
        SplTokenEvent::SetAuthority(e) => RowView::new("spl_token_set_authority_events"@, key)
            .text("mint"@, e.mint@)
            .text("authority_type"@, e.authority_type@)
            .text("new_authority"@, text_or(e.new_authority, "null"@)),
        SplTokenEvent::MintTo(e) => RowView::new("spl_token_mint_to_events"@, key)
            .text("destination_address"@, e.destination.address@)
            .text("destination_owner"@, e.destination.owner@)
            .text("mint"@, e.mint@)
            .text("mint_authority"@, e.mint_authority@)
            .unsigned("amount"@, e.amount)
            .unsigned("destination_pre_balance"@, or_zero(e.destination.pre_balance)),
        SplTokenEvent::Burn(e) => RowView::new("spl_token_burn_events"@, key)
            .text("source_address"@, e.source.address@)
            .text("source_owner"@, e.source.owner@)
            .text("mint"@, e.source.mint@)
            .unsigned("amount"@, e.amount)
            .text("authority"@, e.authority@)
            .unsigned("source_pre_balance"@, or_zero(e.source.pre_balance)),
        SplTokenEvent::CloseAccount(e) => RowView::new("spl_token_close_account_events"@, key)
            .text("source_address"@, e.source.address@)
            .text("source_owner"@, e.source.owner@)
            .text("destination"@, e.destination@)
            .text("mint"@, e.source.mint@),
        SplTokenEvent::FreezeAccount(e) => RowView::new("spl_token_freeze_account_events"@, key)
            .text("source_address"@, e.source.address@)
            .text("source_owner"@, e.source.owner@)
            .text("mint"@, e.source.mint@)
            .text("freeze_authority"@, e.freeze_authority@),
        SplTokenEvent::ThawAccount(e) => RowView::new("spl_token_thaw_account_events"@, key)
            .text("source_address"@, e.source.address@)
            .text("source_owner"@, e.source.owner@)
            .text("mint"@, e.source.mint@)
            .text("freeze_authority"@, e.freeze_authority@),
        SplTokenEvent::InitializeImmutableOwner(e) => RowView::new("spl_token_initialize_immutable_owner_events"@, key)
            .text("account_address"@, e.account.address@)
            .text("account_owner"@, e.account.owner@)
            .text("mint"@, e.account.mint@),
        SplTokenEvent::SyncNative(e) => RowView::new("spl_token_sync_native_events"@, key)
            .text("account_address"@, e.account.address@)
            .text("account_owner"@, e.account.owner@),
    }
}

/// Materializes what the token program decoder returned for an instruction:
/// one row of the table of the event's kind, keyed by the instruction, with
/// the event's fields as columns; no row where the decoder returned no event.
/// An absent authority is written as `null`, an absent balance as 0.
pub fn parse_spl_token_instruction(
    decoded: Option<SplTokenEvent>,
    slot: u64,
    transaction_index: u32,
    instruction_index: i32,
) -> (row: Option<Row>)
    ensures
        match decoded {
            Some(event) => row matches Some(r) && r@ == spl_token_row(
                event,
                RowKey::Instruction { slot, transaction_index, instruction_index },
            ),
            None => row is None,
        },
{
    let event = match decoded {
        Some(event) => event,
        None => {
            return None;
        },
    };
    let key = RowKey::Instruction { slot, transaction_index, instruction_index };
    let row = match event {
        SplTokenEvent::InitializeMint(e) => {
            let mut row = Row::new("spl_token_initialize_mint_events", key);
            row.set_text("mint", e.mint);
            row.set_unsigned("decimals", e.decimals as u64);
            row.set_text("mint_authority", e.mint_authority);
            row.set_text("freeze_authority", value_or_text(e.freeze_authority, "null"));
            row
        },
        SplTokenEvent::InitializeAccount(e) => {
            let mut row = Row::new("spl_token_initialize_account_events", key);
            row.set_text("account_address", e.account.address);
            row.set_text("account_owner", e.account.owner);
            row.set_text("mint", e.account.mint);
            row
        },
        SplTokenEvent::InitializeMultisig(e) => {
            let mut row = Row::new("spl_token_initialize_multisig_events", key);
            row.set_text("multisig", e.multisig);
            row.set_unsigned("m", e.m as u64);
            row
        },
        SplTokenEvent::Transfer(e) => {
            let mut row = Row::new("spl_token_transfer_events", key);
            row.set_text("source_address", e.source.address);
            row.set_text("source_owner", e.source.owner);
            row.set_text("destination_address", e.destination.address);
            row.set_text("destination_owner", e.destination.owner);
            row.set_text("mint", e.source.mint);
            row.set_text("authority", e.authority);
            row.set_unsigned("amount", e.amount);
            row.set_unsigned("source_pre_balance", value_or_zero(e.source.pre_balance));
            row.set_unsigned("destination_pre_balance", value_or_zero(e.destination.pre_balance));
            row
        },
        SplTokenEvent::Approve(e) => {
            let mut row = Row::new("spl_token_approve_events", key);
            row.set_text("source_address", e.source.address);
            row.set_text("source_owner", e.source.owner);
            row.set_text("mint", e.source.mint);
            row.set_text("delegate", e.delegate);
            row.set_unsigned("amount", e.amount);
            row
        },
        SplTokenEvent::Revoke(e) => {
            let mut row = Row::new("spl_token_revoke_events", key);
            row.set_text("source_address", e.source.address);
            row.set_text("source_owner", e.source.owner);
            row.set_text("mint", e.source.mint);
            row
        },
        SplTokenEvent::SetAuthority(e) => {
            let mut row = Row::new("spl_token_set_authority_events", key);
            row.set_text("mint", e.mint);
            row.set_text("authority_type", e.authority_type);
            row.set_text("new_authority", value_or_text(e.new_authority, "null"));
            row
        },
        SplTokenEvent::MintTo(e) => {
            let mut row = Row::new("spl_token_mint_to_events", key);
            row.set_text("destination_address", e.destination.address);
            row.set_text("destination_owner", e.destination.owner);
            row.set_text("mint", e.mint);
            row.set_text("mint_authority", e.mint_authority);
            row.set_unsigned("amount", e.amount);
            row.set_unsigned("destination_pre_balance", value_or_zero(e.destination.pre_balance));
            row
        },
        SplTokenEvent::Burn(e) => {
            let mut row = Row::new("spl_token_burn_events", key);
            row.set_text("source_address", e.source.address);
            row.set_text("source_owner", e.source.owner);
            row.set_text("mint", e.source.mint);
            row.set_unsigned("amount", e.amount);
            row.set_text("authority", e.authority);
            row.set_unsigned("source_pre_balance", value_or_zero(e.source.pre_balance));
            row
        },
        SplTokenEvent::CloseAccount(e) => {
            let mut row = Row::new("spl_token_close_account_events", key);
            row.set_text("source_address", e.source.address);
            row.set_text("source_owner", e.source.owner);
            row.set_text("destination", e.destination);
            row.set_text("mint", e.source.mint);
            row
        },
        SplTokenEvent::FreezeAccount(e) => {
            let mut row = Row::new("spl_token_freeze_account_events", key);
            row.set_text("source_address", e.source.address);
            row.set_text("source_owner", e.source.owner);
            row.set_text("mint", e.source.mint);
            row.set_text("freeze_authority", e.freeze_authority);
            row
        },
        SplTokenEvent::ThawAccount(e) => {
            let mut row = Row::new("spl_token_thaw_account_events", key);
            row.set_text("source_address", e.source.address);
            row.set_text("source_owner", e.source.owner);
            row.set_text("mint", e.source.mint);
            row.set_text("freeze_authority", e.freeze_authority);
            row
        },
        SplTokenEvent::InitializeImmutableOwner(e) => {
            let mut row = Row::new("spl_token_initialize_immutable_owner_events", key);
            row.set_text("account_address", e.account.address);
            row.set_text("account_owner", e.account.owner);
            row.set_text("mint", e.account.mint);
            row
        },
        SplTokenEvent::SyncNative(e) => {
            let mut row = Row::new("spl_token_sync_native_events", key);
            row.set_text("account_address", e.account.address);
            row.set_text("account_owner", e.account.owner);
            row
        },
    };
    Some(row)
}

} // verus!
