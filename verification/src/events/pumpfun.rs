//! Events of the pump.fun launchpad program and the rows that they yield.

use vstd::prelude::*;
use crate::events::{or_zero, value_or_zero};
use crate::row::{Row, RowKey, RowView};

verus! {

/// A token was launched.
#[derive(Clone, Debug, PartialEq, Eq)]
pub struct Create {
    pub user: String,
    pub name: String,
    pub symbol: String,
    pub uri: String,
    pub mint: String,
    pub bonding_curve: String,
    pub associated_bonding_curve: String,
    pub metadata: String,
}

/// The launchpad was initialized.
#[derive(Clone, Debug, PartialEq, Eq)]
pub struct Initialize {
    pub user: String,
}

/// The parameters of the launchpad were set.
#[derive(Clone, Debug, PartialEq, Eq)]
pub struct SetParams {
    pub user: String,
    pub fee_recipient: String,
    pub initial_virtual_token_reserves: u64,
    pub initial_virtual_sol_reserves: u64,
    pub initial_real_token_reserves: u64,
    pub token_total_supply: u64,
    pub fee_basis_points: u64,
}

/// Tokens were bought from or sold to a bonding curve.
#[derive(Clone, Debug, PartialEq, Eq)]
pub struct Swap {
    pub user: String,
    pub mint: String,
    pub bonding_curve: String,
    pub token_amount: u64,
    pub direction: String,
    pub sol_amount: Option<u64>,
    pub virtual_sol_reserves: Option<u64>,
    pub virtual_token_reserves: Option<u64>,
    pub real_sol_reserves: Option<u64>,
    pub real_token_reserves: Option<u64>,
}

/// The liquidity of a completed bonding curve was withdrawn.
#[derive(Clone, Debug, PartialEq, Eq)]
pub struct Withdraw {
    pub mint: String,
}

/// What one launchpad instruction did.
#[derive(Clone, Debug, PartialEq, Eq)]
pub enum PumpfunEvent {
    Create(Create),
    Initialize(Initialize),
    SetParams(SetParams),
    Swap(Swap),
    Withdraw(Withdraw),
}

/// The row of a launchpad event.
pub open spec fn pumpfun_row(event: PumpfunEvent, key: RowKey) -> RowView {
    match event {
        PumpfunEvent::Create(e) => RowView::new("pumpfun_create_events"@, key)
            .text("user"@, e.user@)
            .text("name"@, e.name@)
            .text("symbol"@, e.symbol@)
            .text("uri"@, e.uri@)
            .text("mint"@, e.mint@)
            .text("bonding_curve"@, e.bonding_curve@)
            .text("associated_bonding_curve"@, e.associated_bonding_curve@)
            .text("metadata"@, e.metadata@),
        PumpfunEvent::Initialize(e) => RowView::new("pumpfun_initialize_events"@, key)
            .text("user"@, e.user@),
        PumpfunEvent::SetParams(e) => RowView::new("pumpfun_set_params_events"@, key)
            .text("user"@, e.user@)
            .text("fee_recipient"@, e.fee_recipient@)
            .unsigned("initial_virtual_token_reserves"@, e.initial_virtual_token_reserves)
            .unsigned("initial_virtual_sol_reserves"@, e.initial_virtual_sol_reserves)
            .unsigned("initial_real_token_reserves"@, e.initial_real_token_reserves)
            .unsigned("token_total_supply"@, e.token_total_supply)
            .unsigned("fee_basis_points"@, e.fee_basis_points),
        PumpfunEvent::Swap(e) => RowView::new("pumpfun_swap_events"@, key)
            .text("user"@, e.user@)
            .text("mint"@, e.mint@)
            .text("bonding_curve"@, e.bonding_curve@)
            .unsigned("token_amount"@, e.token_amount)
            .text("direction"@, e.direction@)
            .unsigned("sol_amount"@, or_zero(e.sol_amount))
            .unsigned("virtual_sol_reserves"@, or_zero(e.virtual_sol_reserves))
            .unsigned("virtual_token_reserves"@, or_zero(e.virtual_token_reserves))
            .unsigned("real_sol_reserves"@, or_zero(e.real_sol_reserves))
            .unsigned("real_token_reserves"@, or_zero(e.real_token_reserves)),
        PumpfunEvent::Withdraw(e) => RowView::new("pumpfun_withdraw_events"@, key)
            .text("mint"@, e.mint@),
    }
}

/// Materializes what the launchpad decoder returned for an instruction: one
/// row of the table of the event's kind, keyed by the instruction, with the
/// event's fields as columns; no row where the decoder returned no event. An
/// absent amount is written as 0.
pub fn parse_pumpfun_instruction(
    decoded: Option<PumpfunEvent>,
    slot: u64,
    transaction_index: u32,
    instruction_index: i32,
) -> (row: Option<Row>)
    ensures
        match decoded {
            Some(event) => row matches Some(r) && r@ == pumpfun_row(
                event,
                RowKey::Instruction { slot, transaction_index, instruction_index },
            ),
            None => row is None,
        },
{
    let event = match decoded {
        Some(event) => event,
        None => {
            return None;
        },
    };
    let key = RowKey::Instruction { slot, transaction_index, instruction_index };
    let row = match event {
        PumpfunEvent::Create(e) => {
            let mut row = Row::new("pumpfun_create_events", key);
            row.set_text("user", e.user);
            row.set_text("name", e.name);
            row.set_text("symbol", e.symbol);
            row.set_text("uri", e.uri);
            row.set_text("mint", e.mint);
            row.set_text("bonding_curve", e.bonding_curve);
            row.set_text("associated_bonding_curve", e.associated_bonding_curve);
            row.set_text("metadata", e.metadata);
            row
        },
        PumpfunEvent::Initialize(e) => {
            let mut row = Row::new("pumpfun_initialize_events", key);
            row.set_text("user", e.user);
            row
        },
        PumpfunEvent::SetParams(e) => {
            let mut row = Row::new("pumpfun_set_params_events", key);
            row.set_text("user", e.user);
            row.set_text("fee_recipient", e.fee_recipient);
            row.set_unsigned("initial_virtual_token_reserves", e.initial_virtual_token_reserves);
            row.set_unsigned("initial_virtual_sol_reserves", e.initial_virtual_sol_reserves);
            row.set_unsigned("initial_real_token_reserves", e.initial_real_token_reserves);
            row.set_unsigned("token_total_supply", e.token_total_supply);
            row.set_unsigned("fee_basis_points", e.fee_basis_points);
            row
        },
        PumpfunEvent::Swap(e) => {
            let mut row = Row::new("pumpfun_swap_events", key);
            row.set_text("user", e.user);
            row.set_text("mint", e.mint);
            row.set_text("bonding_curve", e.bonding_curve);
            row.set_unsigned("token_amount", e.token_amount);
            row.set_text("direction", e.direction);
            row.set_unsigned("sol_amount", value_or_zero(e.sol_amount));
            row.set_unsigned("virtual_sol_reserves", value_or_zero(e.virtual_sol_reserves));
            row.set_unsigned("virtual_token_reserves", value_or_zero(e.virtual_token_reserves));
            row.set_unsigned("real_sol_reserves", value_or_zero(e.real_sol_reserves));
            row.set_unsigned("real_token_reserves", value_or_zero(e.real_token_reserves));
            row
        },
        PumpfunEvent::Withdraw(e) => {
            let mut row = Row::new("pumpfun_withdraw_events", key);
            row.set_text("mint", e.mint);
            row
        },
    };
    Some(row)
}

} // verus!
