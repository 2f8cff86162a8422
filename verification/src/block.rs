//! The input: one block, its transactions and their instruction traces, as
//! plain values.

use vstd::prelude::*;

verus! {

/// One executed instruction of a transaction's trace.
#[derive(Clone, Debug, PartialEq, Eq)]
pub struct Instruction {
    /// Index of the invoked program in the transaction's resolved account table.
    pub program_id_index: u32,
    /// Indices of the accounts handed to the program, in order.
    pub accounts: Vec<u8>,
    /// The instruction's payload.
    pub data: Vec<u8>,
    /// Depth in the invocation stack: 1 for a top-level instruction, more for
    /// one invoked by another program.
    pub stack_height: u32,
}

/// The token balance of one account before or after the transaction.
#[derive(Clone, Debug, PartialEq, Eq)]
pub struct TokenBalance {
    pub account_index: u32,
    pub mint: String,
    pub owner: String,
    pub amount: u64,
    pub decimals: u32,
}

/// What the chain recorded about a transaction's execution.
#[derive(Clone, Debug, PartialEq, Eq)]
pub struct TransactionMeta {
    /// The failure tag; `None` for a transaction that succeeded.
    pub err: Option<Vec<u8>>,
    /// Writable addresses loaded from lookup tables; they follow the account keys.
    pub loaded_writable_addresses: Vec<Vec<u8>>,
    /// Read-only addresses loaded from lookup tables; they follow the writable ones.
    pub loaded_readonly_addresses: Vec<Vec<u8>>,
    pub pre_token_balances: Vec<TokenBalance>,
    pub post_token_balances: Vec<TokenBalance>,
}

/// One transaction of a block.
#[derive(Clone, Debug, PartialEq, Eq)]
pub struct Transaction {
    /// Raw signatures; the first one identifies the transaction.
    pub signatures: Vec<Vec<u8>>,
    /// The account keys of the message, 32 bytes each.
    pub account_keys: Vec<Vec<u8>>,
    /// How many of the leading account keys signed the transaction.
    pub num_required_signatures: u32,
    pub meta: Option<TransactionMeta>,
    /// The execution trace in execution order: every invoked instruction
    /// follows the instruction that invoked it.
    pub instructions: Vec<Instruction>,
}

/// One finalized block.
#[derive(Clone, Debug, PartialEq, Eq)]
pub struct Block {
    pub slot: u64,
    pub parent_slot: u64,
    pub block_height: u64,
    pub blockhash: String,
    pub previous_blockhash: String,
    /// Unix seconds.
    pub block_time: i64,
    pub transactions: Vec<Transaction>,
}

impl Transaction {
    /// Whether execution failed: the meta record is there and carries a failure tag.
    pub open spec fn failed(&self) -> bool {
        self.meta matches Some(meta) && meta.err is Some
    }

    /// The stack heights of the trace, in execution order.
    pub open spec fn heights(&self) -> Seq<u32> {
        Seq::new(self.instructions@.len(), |i: int| self.instructions@[i].stack_height)
    }
}

} // verus!
