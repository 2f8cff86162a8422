//! What the decoders of the supported programs report, and the row that each
//! event yields.

use vstd::prelude::*;
use crate::row::{Row, RowKey, RowView};

pub mod mpl_token_metadata;
pub mod pumpfun;
pub mod raydium_amm;
pub mod spl_token;
pub mod system_program;

use mpl_token_metadata::{
    mpl_token_metadata_row, parse_mpl_token_metadata_instruction, MplTokenMetadataEvent,
};
use pumpfun::{parse_pumpfun_instruction, pumpfun_row, PumpfunEvent};
use raydium_amm::{parse_raydium_amm_instruction, raydium_amm_row, RaydiumAmmEvent};
use spl_token::{parse_spl_token_instruction, spl_token_row, SplTokenEvent};
use system_program::{parse_system_program_instruction, system_program_row, SystemProgramEvent};

verus! {

/// An amount that may be absent; absent counts as 0.
pub open spec fn or_zero(value: Option<u64>) -> u64 {
    match value {
        Some(v) => v,
        None => 0,
    }
}

/// An amount that may be absent; absent counts as 0.
pub fn value_or_zero(value: Option<u64>) -> (v: u64)
    ensures
        v == or_zero(value),
{
    match value {
        Some(v) => v,
        None => 0,
    }
}

/// A text that may be absent; `default` stands for an absent one.
pub open spec fn text_or(value: Option<String>, default: Seq<char>) -> Seq<char> {
    match value {
        Some(v) => v@,
        None => default,
    }
}

/// A text that may be absent; `default` stands for an absent one.
pub fn value_or_text(value: Option<String>, default: &str) -> (v: String)
    ensures
        v@ == text_or(value, default@),
{
    match value {
        Some(v) => v,
        None => default.to_owned(),
    }
}

/// What the decoder of one of the supported programs reports for an instruction.
#[derive(Clone, Debug, PartialEq, Eq)]
pub enum Event {
    RaydiumAmm(RaydiumAmmEvent),
    SplToken(SplTokenEvent),
    SystemProgram(SystemProgramEvent),
    Pumpfun(PumpfunEvent),
    MplTokenMetadata(MplTokenMetadataEvent),
}

/// The row that an event yields under a key, before the dispatch adds its columns.
pub open spec fn event_row(event: Event, key: RowKey) -> RowView {
    match event {
        Event::RaydiumAmm(e) => raydium_amm_row(e, key),
        Event::SplToken(e) => spl_token_row(e, key),
        Event::SystemProgram(e) => system_program_row(e, key),
        Event::Pumpfun(e) => pumpfun_row(e, key),
        Event::MplTokenMetadata(e) => mpl_token_metadata_row(e, key),
    }
}

/// Materializes an event as the row of the instruction that it belongs to.
pub fn materialize(event: Event, slot: u64, transaction_index: u32, instruction_index: i32) -> (row:
    Row)
    ensures
        row@ == event_row(event, RowKey::Instruction { slot, transaction_index, instruction_index }),
{
    let row = match event {
        Event::RaydiumAmm(e) => parse_raydium_amm_instruction(
            Some(e),
            slot,
            transaction_index,
            instruction_index,
        ),
        Event::SplToken(e) => parse_spl_token_instruction(
            Some(e),
            slot,
            transaction_index,
            instruction_index,
        ),
        Event::SystemProgram(e) => parse_system_program_instruction(
            Some(e),
            slot,
            transaction_index,
            instruction_index,
        ),
        Event::Pumpfun(e) => parse_pumpfun_instruction(
            Some(e),
            slot,
            transaction_index,
            instruction_index,
        ),
        Event::MplTokenMetadata(e) => parse_mpl_token_metadata_instruction(
            Some(e),
            slot,
            transaction_index,
            instruction_index,
        ),
    };
    row.unwrap()
}

} // verus!
