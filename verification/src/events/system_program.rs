//! Events of the system program and the rows that they yield.

use vstd::prelude::*;
use crate::row::{Row, RowKey, RowView};

verus! {

/// A new account was created and funded.
#[derive(Clone, Debug, PartialEq, Eq)]
pub struct CreateAccount {
    pub funding_account: String,
    pub new_account: String,
    pub lamports: u64,
    pub space: u64,
    pub owner: String,
}

/// An account was assigned to an owning program.
#[derive(Clone, Debug, PartialEq, Eq)]
pub struct Assign {
    pub assigned_account: String,
    pub owner: String,
}

/// Lamports moved from one account to another.
#[derive(Clone, Debug, PartialEq, Eq)]
pub struct Transfer {
    pub funding_account: String,
    pub recipient_account: String,
    pub lamports: u64,
}

/// A new account was created at an address derived from a base and a seed.
#[derive(Clone, Debug, PartialEq, Eq)]
pub struct CreateAccountWithSeed {
    pub funding_account: String,
    pub created_account: String,
    pub base_account: String,
    pub seed: String,
    pub lamports: u64,
    pub space: u64,
    pub owner: String,
}

/// The stored nonce of a nonce account was consumed.
#[derive(Clone, Debug, PartialEq, Eq)]
pub struct AdvanceNonceAccount {
    pub nonce_account: String,
    pub nonce_authority: String,
}

/// Lamports were withdrawn from a nonce account.
#[derive(Clone, Debug, PartialEq, Eq)]
pub struct WithdrawNonceAccount {
    pub nonce_account: String,
    pub nonce_authority: String,
    pub recipient_account: String,
    pub lamports: u64,
}

/// A nonce account was initialized.
#[derive(Clone, Debug, PartialEq, Eq)]
pub struct InitializeNonceAccount {
    pub nonce_account: String,
    pub nonce_authority: String,
}

/// The authority of a nonce account changed.
#[derive(Clone, Debug, PartialEq, Eq)]
pub struct AuthorizeNonceAccount {
    pub nonce_account: String,
    pub nonce_authority: String,
    pub new_nonce_authority: String,
}

/// Space was allocated in an account.
#[derive(Clone, Debug, PartialEq, Eq)]
pub struct Allocate {
    pub account: String,
    pub space: u64,
}

/// Space was allocated in an account at a derived address.
#[derive(Clone, Debug, PartialEq, Eq)]
pub struct AllocateWithSeed {
    pub allocated_account: String,
    pub base_account: String,
    pub seed: String,
    pub space: u64,
    pub owner: String,
}

/// An account at a derived address was assigned to an owning program.
#[derive(Clone, Debug, PartialEq, Eq)]
pub struct AssignWithSeed {
    pub assigned_account: String,
    pub base_account: String,
    pub seed: String,
    pub owner: String,
}

/// Lamports moved out of an account at a derived address.
#[derive(Clone, Debug, PartialEq, Eq)]
pub struct TransferWithSeed {
    pub funding_account: String,
    pub base_account: String,
    pub recipient_account: String,
    pub lamports: u64,
    pub from_seed: String,
    pub from_owner: String,
}

/// A nonce account was upgraded to the current layout.
#[derive(Clone, Debug, PartialEq, Eq)]
pub struct UpgradeNonceAccount {
    pub nonce_account: String,
}

/// What one system program instruction did.
#[derive(Clone, Debug, PartialEq, Eq)]
pub enum SystemProgramEvent {
    CreateAccount(CreateAccount),
    Assign(Assign),
    Transfer(Transfer),
    CreateAccountWithSeed(CreateAccountWithSeed),
    AdvanceNonceAccount(AdvanceNonceAccount),
    WithdrawNonceAccount(WithdrawNonceAccount),
    InitializeNonceAccount(InitializeNonceAccount),
    AuthorizeNonceAccount(AuthorizeNonceAccount),
    Allocate(Allocate),
    AllocateWithSeed(AllocateWithSeed),
    AssignWithSeed(AssignWithSeed),
    TransferWithSeed(TransferWithSeed),
    UpgradeNonceAccount(UpgradeNonceAccount),
}

/// The row of a system program event.
pub open spec fn system_program_row(event: SystemProgramEvent, key: RowKey) -> RowView {
    match event {
        SystemProgramEvent::CreateAccount(e) => RowView::new("system_program_create_account_events"@, key)
            .text("funding_account"@, e.funding_account@)
            .text("new_account"@, e.new_account@)
            .unsigned("lamports"@, e.lamports)
            .unsigned("space"@, e.space)
            .text("owner"@, e.owner@),
        SystemProgramEvent::Assign(e) => RowView::new("system_program_assign_events"@, key)
            .text("assigned_account"@, e.assigned_account@)
            .text("owner"@, e.owner@),
        SystemProgramEvent::Transfer(e) => RowView::new("system_program_transfer_events"@, key)
            .text("funding_account"@, e.funding_account@)
            .text("recipient_account"@, e.recipient_account@)
            .unsigned("lamports"@, e.lamports),
        SystemProgramEvent::CreateAccountWithSeed(e) => RowView::new("system_program_create_account_with_seed_events"@, key)
            .text("funding_account"@, e.funding_account@)
            .text("created_account"@, e.created_account@)
            .text("base_account"@, e.base_account@)
            .text("seed"@, e.seed@)
            .unsigned("lamports"@, e.lamports)
            .unsigned("space"@, e.space)
            .text("owner"@, e.owner@),
        SystemProgramEvent::AdvanceNonceAccount(e) => RowView::new("system_program_advance_nonce_account_events"@, key)
            .text("nonce_account"@, e.nonce_account@)
            .text("nonce_authority"@, e.nonce_authority@),
        SystemProgramEvent::WithdrawNonceAccount(e) => RowView::new("system_program_withdraw_nonce_account_events"@, key)
            .text("nonce_account"@, e.nonce_account@)
            .text("nonce_authority"@, e.nonce_authority@)
            .text("recipient_account"@, e.recipient_account@)
            .unsigned("lamports"@, e.lamports),
        SystemProgramEvent::InitializeNonceAccount(e) => RowView::new("system_program_initialize_nonce_account_events"@, key)
            .text("nonce_account"@, e.nonce_account@)
            .text("nonce_authority"@, e.nonce_authority@),
        SystemProgramEvent::AuthorizeNonceAccount(e) => RowView::new("system_program_authorize_nonce_account_events"@, key)
            .text("nonce_account"@, e.nonce_account@)
            .text("nonce_authority"@, e.nonce_authority@)
            .text("new_nonce_authority"@, e.new_nonce_authority@),
        SystemProgramEvent::Allocate(e) => RowView::new("system_program_allocate_events"@, key)
            .text("account"@, e.account@)
            .unsigned("space"@, e.space),
        SystemProgramEvent::AllocateWithSeed(e) => RowView::new("system_program_allocate_with_seed_events"@, key)
            .text("allocated_account"@, e.allocated_account@)
            .text("base_account"@, e.base_account@)
            .text("seed"@, e.seed@)
            .unsigned("space"@, e.space)
            .text("owner"@, e.owner@),
        SystemProgramEvent::AssignWithSeed(e) => RowView::new("system_program_assign_with_seed_events"@, key)
            .text("assigned_account"@, e.assigned_account@)
            .text("base_account"@, e.base_account@)
            .text("seed"@, e.seed@)
            .text("owner"@, e.owner@),
        SystemProgramEvent::TransferWithSeed(e) => RowView::new("system_program_transfer_with_seed_events"@, key)
            .text("funding_account"@, e.funding_account@)
            .text("base_account"@, e.base_account@)
            .text("recipient_account"@, e.recipient_account@)
            .unsigned("lamports"@, e.lamports)
            .text("from_seed"@, e.from_seed@)
            .text("from_owner"@, e.from_owner@),
        SystemProgramEvent::UpgradeNonceAccount(e) => RowView::new("system_program_upgrade_nonce_account_events"@, key)
            .text("nonce_account"@, e.nonce_account@),
    }
}

/// Materializes what the system program decoder returned for an instruction:
/// one row of the table of the event's kind, keyed by the instruction, with
/// the event's fields as columns; no row where the decoder returned no event.
pub fn parse_system_program_instruction(
    decoded: Option<SystemProgramEvent>,
    slot: u64,
    transaction_index: u32,
    instruction_index: i32,
) -> (row: Option<Row>)
    ensures
        match decoded {
            Some(event) => row matches Some(r) && r@ == system_program_row(
                event,
                RowKey::Instruction { slot, transaction_index, instruction_index },
            ),
            None => row is None,
        },
{
    let event = match decoded {
        Some(event) => event,
        None => {
            return None;
        },
    };
    let key = RowKey::Instruction { slot, transaction_index, instruction_index };
    let row = match event {
        SystemProgramEvent::CreateAccount(e) => {
            let mut row = Row::new("system_program_create_account_events", key);
            row.set_text("funding_account", e.funding_account);
            row.set_text("new_account", e.new_account);
            row.set_unsigned("lamports", e.lamports);
            row.set_unsigned("space", e.space);
            row.set_text("owner", e.owner);
            row
        },
        SystemProgramEvent::Assign(e) => {
            let mut row = Row::new("system_program_assign_events", key);
            row.set_text("assigned_account", e.assigned_account);
            row.set_text("owner", e.owner);
            row
        },
        SystemProgramEvent::Transfer(e) => {
            let mut row = Row::new("system_program_transfer_events", key);
            row.set_text("funding_account", e.funding_account);
            row.set_text("recipient_account", e.recipient_account);
            row.set_unsigned("lamports", e.lamports);
            row
        },
        SystemProgramEvent::CreateAccountWithSeed(e) => {
            let mut row = Row::new("system_program_create_account_with_seed_events", key);
            row.set_text("funding_account", e.funding_account);
            row.set_text("created_account", e.created_account);
            row.set_text("base_account", e.base_account);
            row.set_text("seed", e.seed);
            row.set_unsigned("lamports", e.lamports);
            row.set_unsigned("space", e.space);
            row.set_text("owner", e.owner);
            row
        },
        SystemProgramEvent::AdvanceNonceAccount(e) => {
            let mut row = Row::new("system_program_advance_nonce_account_events", key);
            row.set_text("nonce_account", e.nonce_account);
            row.set_text("nonce_authority", e.nonce_authority);
            row
        },
        SystemProgramEvent::WithdrawNonceAccount(e) => {
            let mut row = Row::new("system_program_withdraw_nonce_account_events", key);
            row.set_text("nonce_account", e.nonce_account);
            row.set_text("nonce_authority", e.nonce_authority);
            row.set_text("recipient_account", e.recipient_account);
            row.set_unsigned("lamports", e.lamports);
            row
        },
        SystemProgramEvent::InitializeNonceAccount(e) => {
            let mut row = Row::new("system_program_initialize_nonce_account_events", key);
            row.set_text("nonce_account", e.nonce_account);
            row.set_text("nonce_authority", e.nonce_authority);
            row
        },
        SystemProgramEvent::AuthorizeNonceAccount(e) => {
            let mut row = Row::new("system_program_authorize_nonce_account_events", key);
            row.set_text("nonce_account", e.nonce_account);
            row.set_text("nonce_authority", e.nonce_authority);
            row.set_text("new_nonce_authority", e.new_nonce_authority);
            row
        },
        SystemProgramEvent::Allocate(e) => {
            let mut row = Row::new("system_program_allocate_events", key);
            row.set_text("account", e.account);
            row.set_unsigned("space", e.space);
            row
        },
        SystemProgramEvent::AllocateWithSeed(e) => {
            let mut row = Row::new("system_program_allocate_with_seed_events", key);
            row.set_text("allocated_account", e.allocated_account);
            row.set_text("base_account", e.base_account);
            row.set_text("seed", e.seed);
            row.set_unsigned("space", e.space);
            row.set_text("owner", e.owner);
            row
        },
        SystemProgramEvent::AssignWithSeed(e) => {
            let mut row = Row::new("system_program_assign_with_seed_events", key);
            row.set_text("assigned_account", e.assigned_account);
            row.set_text("base_account", e.base_account);
            row.set_text("seed", e.seed);
            row.set_text("owner", e.owner);
            row
        },
        SystemProgramEvent::TransferWithSeed(e) => {
            let mut row = Row::new("system_program_transfer_with_seed_events", key);
            row.set_text("funding_account", e.funding_account);
            row.set_text("base_account", e.base_account);
            row.set_text("recipient_account", e.recipient_account);
            row.set_unsigned("lamports", e.lamports);
            row.set_text("from_seed", e.from_seed);
            row.set_text("from_owner", e.from_owner);
            row
        },
        SystemProgramEvent::UpgradeNonceAccount(e) => {
            let mut row = Row::new("system_program_upgrade_nonce_account_events", key);
            row.set_text("nonce_account", e.nonce_account);
            row
        },
    };
    Some(row)
}

} // verus!
