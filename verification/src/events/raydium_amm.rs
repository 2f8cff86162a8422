//! Events of the Raydium AMM program and the rows that they yield.

use vstd::prelude::*;
use crate::events::{or_zero, text_or, value_or_text, value_or_zero};
use crate::row::{Row, RowKey, RowView};

verus! {

/// One token was swapped for the other of a pool.
#[derive(Clone, Debug, PartialEq, Eq)]
pub struct Swap {
    pub amm: String,
    pub user: String,
    pub amount_in: u64,
    pub amount_out: u64,
    pub mint_in: String,
    pub mint_out: String,
    pub direction: String,
    pub pool_pc_amount: Option<u64>,
    pub pool_coin_amount: Option<u64>,
    pub user_pre_balance_in: Option<u64>,
    pub user_pre_balance_out: Option<u64>,
}

/// A pool was initialized.
#[derive(Clone, Debug, PartialEq, Eq)]
pub struct Initialize {
    pub amm: String,
    pub user: String,
    pub pc_init_amount: u64,
    pub coin_init_amount: u64,
    pub lp_init_amount: u64,
    pub pc_mint: String,
    pub coin_mint: String,
    pub lp_mint: String,
    pub user_pc_pre_balance: Option<u64>,
    pub user_coin_pre_balance: Option<u64>,
}

/// Liquidity was added to a pool.
#[derive(Clone, Debug, PartialEq, Eq)]
pub struct Deposit {
    pub amm: String,
    pub user: String,
    pub pc_amount: u64,
    pub coin_amount: u64,
    pub pool_pc_amount: Option<u64>,
    pub pool_coin_amount: Option<u64>,
    pub lp_amount: u64,
    pub pc_mint: String,
    pub coin_mint: String,
    pub lp_mint: String,
    pub user_pc_pre_balance: Option<u64>,
    pub user_coin_pre_balance: Option<u64>,
}

/// Liquidity was taken out of a pool.
#[derive(Clone, Debug, PartialEq, Eq)]
pub struct Withdraw {
    pub amm: String,
    pub user: String,
    pub pc_amount: u64,
    pub coin_amount: u64,
    pub pool_pc_amount: Option<u64>,
    pub pool_coin_amount: Option<u64>,
    pub lp_amount: u64,
    pub pc_mint: String,
    pub coin_mint: String,
    pub lp_mint: String,
    pub user_pc_pre_balance: Option<u64>,
    pub user_coin_pre_balance: Option<u64>,
}

/// Accrued fees were taken out of a pool.
#[derive(Clone, Debug, PartialEq, Eq)]
pub struct WithdrawPnl {
    pub amm: String,
    pub user: String,
    pub pc_amount: Option<u64>,
    pub coin_amount: Option<u64>,
    pub pc_mint: Option<String>,
    pub coin_mint: Option<String>,
}

/// What one AMM instruction did.
#[derive(Clone, Debug, PartialEq, Eq)]
pub enum RaydiumAmmEvent {
    Swap(Swap),
    Initialize(Initialize),
    Deposit(Deposit),
    Withdraw(Withdraw),
    WithdrawPnl(WithdrawPnl),
}

/// The row of an AMM event.
pub open spec fn raydium_amm_row(event: RaydiumAmmEvent, key: RowKey) -> RowView {
    match event {
        RaydiumAmmEvent::Swap(e) => RowView::new("raydium_amm_swap_events"@, key)
            .text("amm"@, e.amm@)
            .text("user"@, e.user@)
            .unsigned("amount_in"@, e.amount_in)
            .unsigned("amount_out"@, e.amount_out)
            .text("mint_in"@, e.mint_in@)
            .text("mint_out"@, e.mint_out@)
            .text("direction"@, e.direction@)
            .unsigned("pool_pc_amount"@, or_zero(e.pool_pc_amount))
            .unsigned("pool_coin_amount"@, or_zero(e.pool_coin_amount))
            .unsigned("user_pre_balance_in"@, or_zero(e.user_pre_balance_in))
            .unsigned("user_pre_balance_out"@, or_zero(e.user_pre_balance_out)),
        RaydiumAmmEvent::Initialize(e) => RowView::new("raydium_amm_initialize_events"@, key)
            .text("amm"@, e.amm@)
            .text("user"@, e.user@)
            .unsigned("pc_init_amount"@, e.pc_init_amount)
            .unsigned("coin_init_amount"@, e.coin_init_amount)
            .unsigned("lp_init_amount"@, e.lp_init_amount)
            .text("pc_mint"@, e.pc_mint@)
            .text("coin_mint"@, e.coin_mint@)
            .text("lp_mint"@, e.lp_mint@)
            .unsigned("user_pc_pre_balance"@, or_zero(e.user_pc_pre_balance))
            .unsigned("user_coin_pre_balance"@, or_zero(e.user_coin_pre_balance)),
        RaydiumAmmEvent::Deposit(e) => RowView::new("raydium_amm_deposit_events"@, key)
            .text("amm"@, e.amm@)
            .text("user"@, e.user@)
            .unsigned("pc_amount"@, e.pc_amount)
            .unsigned("coin_amount"@, e.coin_amount)
            .unsigned("pool_pc_amount"@, or_zero(e.pool_pc_amount))
            .unsigned("pool_coin_amount"@, or_zero(e.pool_coin_amount))
            .unsigned("lp_amount"@, e.lp_amount)
            .text("pc_mint"@, e.pc_mint@)
            .text("coin_mint"@, e.coin_mint@)
            .text("lp_mint"@, e.lp_mint@)
            .unsigned("user_pc_pre_balance"@, or_zero(e.user_pc_pre_balance))
            .unsigned("user_coin_pre_balance"@, or_zero(e.user_coin_pre_balance)),
        RaydiumAmmEvent::Withdraw(e) => RowView::new("raydium_amm_withdraw_events"@, key)
            .text("amm"@, e.amm@)
            .text("user"@, e.user@)
            .unsigned("pc_amount"@, e.pc_amount)
            .unsigned("coin_amount"@, e.coin_amount)
            .unsigned("pool_pc_amount"@, or_zero(e.pool_pc_amount))
            .unsigned("pool_coin_amount"@, or_zero(e.pool_coin_amount))
            .unsigned("lp_amount"@, e.lp_amount)
            .text("pc_mint"@, e.pc_mint@)
            .text("coin_mint"@, e.coin_mint@)
            .text("lp_mint"@, e.lp_mint@)
            .unsigned("user_pc_pre_balance"@, or_zero(e.user_pc_pre_balance))
            .unsigned("user_coin_pre_balance"@, or_zero(e.user_coin_pre_balance)),
        RaydiumAmmEvent::WithdrawPnl(e) => RowView::new("raydium_amm_withdraw_pnl_events"@, key)
            .text("amm"@, e.amm@)
            .text("user"@, e.user@)
            .unsigned("pc_amount"@, or_zero(e.pc_amount))
            .unsigned("coin_amount"@, or_zero(e.coin_amount))
            .text("pc_mint"@, text_or(e.pc_mint, ""@))
            .text("coin_mint"@, text_or(e.coin_mint, ""@)),
    }
}

/// Materializes what the AMM decoder returned for an instruction: one row of
/// the table of the event's kind, keyed by the instruction, with the event's
/// fields as columns; no row where the decoder returned no event. An absent
/// amount is written as 0, an absent mint as the empty text.
pub fn parse_raydium_amm_instruction(
    decoded: Option<RaydiumAmmEvent>,
    slot: u64,
    transaction_index: u32,
    instruction_index: i32,
) -> (row: Option<Row>)
    ensures
        match decoded {
            Some(event) => row matches Some(r) && r@ == raydium_amm_row(
                event,
                RowKey::Instruction { slot, transaction_index, instruction_index },
            ),
            None => row is None,
        },
{
    let event = match decoded {
        Some(event) => event,
        None => {
            return None;
        },
    };
    let key = RowKey::Instruction { slot, transaction_index, instruction_index };
    let row = match event {
        RaydiumAmmEvent::Swap(e) => {
            let mut row = Row::new("raydium_amm_swap_events", key);
            row.set_text("amm", e.amm);
            row.set_text("user", e.user);
            row.set_unsigned("amount_in", e.amount_in);
            row.set_unsigned("amount_out", e.amount_out);
            row.set_text("mint_in", e.mint_in);
            row.set_text("mint_out", e.mint_out);
            row.set_text("direction", e.direction);
            row.set_unsigned("pool_pc_amount", value_or_zero(e.pool_pc_amount));
            row.set_unsigned("pool_coin_amount", value_or_zero(e.pool_coin_amount));
            row.set_unsigned("user_pre_balance_in", value_or_zero(e.user_pre_balance_in));
            row.set_unsigned("user_pre_balance_out", value_or_zero(e.user_pre_balance_out));
            row
        },
        RaydiumAmmEvent::Initialize(e) => {
            let mut row = Row::new("raydium_amm_initialize_events", key);
            row.set_text("amm", e.amm);
            row.set_text("user", e.user);
            row.set_unsigned("pc_init_amount", e.pc_init_amount);
            row.set_unsigned("coin_init_amount", e.coin_init_amount);
            row.set_unsigned("lp_init_amount", e.lp_init_amount);
            row.set_text("pc_mint", e.pc_mint);
            row.set_text("coin_mint", e.coin_mint);
            row.set_text("lp_mint", e.lp_mint);
            row.set_unsigned("user_pc_pre_balance", value_or_zero(e.user_pc_pre_balance));
            row.set_unsigned("user_coin_pre_balance", value_or_zero(e.user_coin_pre_balance));
            row
        },
        RaydiumAmmEvent::Deposit(e) => {
            let mut row = Row::new("raydium_amm_deposit_events", key);
            row.set_text("amm", e.amm);
            row.set_text("user", e.user);
            row.set_unsigned("pc_amount", e.pc_amount);
            row.set_unsigned("coin_amount", e.coin_amount);
            row.set_unsigned("pool_pc_amount", value_or_zero(e.pool_pc_amount));
            row.set_unsigned("pool_coin_amount", value_or_zero(e.pool_coin_amount));
            row.set_unsigned("lp_amount", e.lp_amount);
            row.set_text("pc_mint", e.pc_mint);
            row.set_text("coin_mint", e.coin_mint);
            row.set_text("lp_mint", e.lp_mint);
            row.set_unsigned("user_pc_pre_balance", value_or_zero(e.user_pc_pre_balance));
            row.set_unsigned("user_coin_pre_balance", value_or_zero(e.user_coin_pre_balance));
            row
        },
        RaydiumAmmEvent::Withdraw(e) => {
            let mut row = Row::new("raydium_amm_withdraw_events", key);
            row.set_text("amm", e.amm);
            row.set_text("user", e.user);
            row.set_unsigned("pc_amount", e.pc_amount);
            row.set_unsigned("coin_amount", e.coin_amount);
            row.set_unsigned("pool_pc_amount", value_or_zero(e.pool_pc_amount));
            row.set_unsigned("pool_coin_amount", value_or_zero(e.pool_coin_amount));
            row.set_unsigned("lp_amount", e.lp_amount);
            row.set_text("pc_mint", e.pc_mint);
            row.set_text("coin_mint", e.coin_mint);
            row.set_text("lp_mint", e.lp_mint);
            row.set_unsigned("user_pc_pre_balance", value_or_zero(e.user_pc_pre_balance));
            row.set_unsigned("user_coin_pre_balance", value_or_zero(e.user_coin_pre_balance));
            row
        },
        RaydiumAmmEvent::WithdrawPnl(e) => {
            let mut row = Row::new("raydium_amm_withdraw_pnl_events", key);
            row.set_text("amm", e.amm);
            row.set_text("user", e.user);
            row.set_unsigned("pc_amount", value_or_zero(e.pc_amount));
            row.set_unsigned("coin_amount", value_or_zero(e.coin_amount));
            row.set_text("pc_mint", value_or_text(e.pc_mint, ""));
            row.set_text("coin_mint", value_or_text(e.coin_mint, ""));
            row
        },
    };
    Some(row)
}

} // verus!
