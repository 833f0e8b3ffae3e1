//! Why a transfer was not made.

use solana_program::program_error::ProgramError;
use vstd::prelude::*;

verus! {

/// `solana_program::program_error::ProgramError`, the error type of the
/// runtime, in which the token program reports too.  Verus carries such a
/// value through without looking inside.
#[verifier::external_type_specification]
#[verifier::external_body]
pub struct ExProgramError(ProgramError);

/// The reasons for which a call fails, in the order in which they are looked
/// for.  Every one of them ends the call at once.  All but the last are found
/// before the token program is reached.
#[derive(Debug, PartialEq, Eq)]
pub enum TransferError {
    /// Fewer than five accounts were supplied.
    NotEnoughAccountKeys,
    /// The authority account is not the address derived for this program.
    InvalidSeeds,
    /// The instruction payload is not exactly eight bytes long.
    InvalidInstructionData,
    /// The mint account's data is mutably borrowed and cannot be read.
    AccountBorrowFailed,
    /// The mint account's data does not have the layout of a mint record.
    InvalidAccountData,
    /// The mint account's data is a mint record that was never initialized.
    UninitializedAccount,
    /// The token program, or the builder of its instruction, refused the
    /// transfer.  The error is passed on as it came.
    Downstream(ProgramError),
}

} // verus!
