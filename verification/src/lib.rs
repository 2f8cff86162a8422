//! Turns one finalized Solana block into an ordered batch of row insertions
//! for an analytical database.
//!
//! The block's transactions carry a flat execution trace of instructions with
//! their stack heights. The library rebuilds the tree of nested instructions,
//! numbers it in pre-order, asks a caller-supplied decoder for the event of
//! each instruction of a supported program, and emits one typed row per event,
//! annotated with the instruction's parent and top-level ancestor.
//!
//! - [`block`]: the input as plain values; [`trace`] brings a recorded
//!   execution into trace order.
//! - [`pubkey`], [`programs`]: addresses, and the programs that yield rows.
//! - [`transaction`]: what is resolved once per transaction.
//! - [`instruction`]: the instruction tree and its numbering.
//! - [`events`]: what the decoders report, and the row of each event.
//! - [`row`]: rows, the sink that stages them, and the batch.
//! - [`dispatch`], [`pipeline`]: from one instruction to one block.
//! - [`guarantees`]: what holds of every batch.
//! - [`signature_keyed`]: a second layout, keyed by transaction signature.
//!
//! Transactions are numbered with 32 bits and instructions with 31: the
//! functions that number them require that the block is no larger.

pub mod block;
pub mod dispatch;
pub mod error;
pub mod events;
pub mod guarantees;
pub mod instruction;
pub mod pipeline;
pub mod programs;
pub mod pubkey;
pub mod row;
pub mod signature_keyed;
pub mod trace;
pub mod transaction;
