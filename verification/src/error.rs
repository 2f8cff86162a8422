//! The two ways in which a block is refused.

use vstd::prelude::*;

verus! {

/// What is malformed about a transaction.
#[derive(Clone, Copy, Debug, PartialEq, Eq, Structural)]
pub enum BadInput {
    /// The transaction has no meta record.
    MissingMeta,
    /// The transaction has no signature.
    MissingSignature,
    /// An address is not 32 bytes long, more signers are required than there
    /// are account keys, or an instruction names an account that the table
    /// does not hold.
    InconsistentAccounts,
    /// An instruction has stack height 0.
    ZeroStackHeight,
}

/// Why no row batch was produced for a block.
#[derive(Clone, Debug, PartialEq, Eq)]
pub enum Error {
    /// A transaction of the block is structurally malformed.
    BadInput { transaction_index: u32, kind: BadInput },
    /// The decoder of a supported program could not decode an instruction.
    DecoderFailure { signature: String, instruction_index: i32, message: String },
}

/// The mathematical value of an [`Error`].
pub enum ErrorView {
    BadInput { transaction_index: u32, kind: BadInput },
    DecoderFailure { signature: Seq<char>, instruction_index: i32, message: Seq<char> },
}

impl View for Error {
    type V = ErrorView;

    open spec fn view(&self) -> ErrorView {
        match *self {
            Error::BadInput { transaction_index, kind } => ErrorView::BadInput {
                transaction_index,
                kind,
            },
            Error::DecoderFailure { signature, instruction_index, message } => {
                ErrorView::DecoderFailure {
                    signature: signature@,
                    instruction_index,
                    message: message@,
                }
            },
        }
    }
}

} // verus!
