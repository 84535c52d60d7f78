//! The failures the instruction processor can report.

use vstd::prelude::*;

verus! {

/// A typed failure of one invocation. Every error is detected before any
/// byte of the account buffer is written, so a failing invocation leaves
/// the account unchanged.
#[derive(Clone, Copy, Debug, PartialEq, Eq, Structural)]
pub enum ProgramError {
    /// The account's recorded owner is not the invoking program.
    IncorrectProgramId,
    /// The instruction payload is empty or its opcode byte is unknown.
    InvalidInstructionData,
    /// The account buffer is too short to hold the 4-byte counter.
    InvalidAccountData,
    /// Arithmetic overflow on increment or underflow on decrement.
    InvalidArgument,
    /// Exclusive access to the account buffer could not be obtained. The
    /// host runtime enforces single-writer access to account buffers; with
    /// the buffer held directly, as here, the processor never reports it.
    AccountBorrowFailed,
    /// No account was supplied in the input sequence.
    MissingAccount,
}

} // verus!
