//! The decimal precision of a token, read from its mint record.
//!
//! A checked transfer names the number of decimals of the token, and the token
//! program refuses it when that number is not the mint's.  The number is
//! therefore never taken from the caller: it is read from the mint account.
//!
//! A mint record is 82 bytes in a fixed layout:
//!
//! | bytes    | field                                              |
//! |----------|----------------------------------------------------|
//! | 0..4     | tag of the mint authority: 0 (none) or 1 (some)    |
//! | 4..36    | the mint authority                                 |
//! | 36..44   | supply                                             |
//! | 44       | decimals                                           |
//! | 45       | initialization flag: 0 or 1                        |
//! | 46..50   | tag of the freeze authority: 0 (none) or 1 (some)  |
//! | 50..82   | the freeze authority                               |
//!
//! A tag is a 32-bit integer in little-endian order.

use crate::error::TransferError;
use solana_program::program_error::ProgramError;
use spl_token::solana_program::program_pack::Pack;
use spl_token::state::Mint;
use vstd::prelude::*;

verus! {

/// Number of bytes in a mint record.
pub const MINT_LEN: usize = 82;

/// Index of the tag of the mint authority.
pub const MINT_AUTHORITY_TAG: usize = 0;

/// Index of the decimals.
pub const DECIMALS: usize = 44;

/// Index of the initialization flag.
pub const INITIALIZED: usize = 45;

/// Index of the tag of the freeze authority.
pub const FREEZE_AUTHORITY_TAG: usize = 46;

/// Whether the four bytes of `data` from index `at` are the tag of an
/// optional field: the integer 0 or 1.
pub open spec fn is_option_tag(data: Seq<u8>, at: int) -> bool {
    &&& data[at] == 0 || data[at] == 1
    &&& data[at + 1] == 0
    &&& data[at + 2] == 0
    &&& data[at + 3] == 0
}

/// Whether `data` has the layout of a mint record, initialized or not.
pub open spec fn is_mint_record(data: Seq<u8>) -> bool {
    &&& data.len() == MINT_LEN
    &&& is_option_tag(data, MINT_AUTHORITY_TAG as int)
    &&& data[INITIALIZED as int] == 0 || data[INITIALIZED as int] == 1
    &&& is_option_tag(data, FREEZE_AUTHORITY_TAG as int)
}

/// Whether `data` is a mint record that has been initialized.
pub open spec fn is_initialized_mint(data: Seq<u8>) -> bool {
    is_mint_record(data) && data[INITIALIZED as int] == 1
}

/// The decimals that `data` holds: byte 44 of an initialized mint record.
/// Data of another layout is invalid; a record whose flag is 0 is
/// uninitialized.
pub open spec fn mint_decimals(data: Seq<u8>) -> Result<u8, TransferError> {
    if !is_mint_record(data) {
        Err(TransferError::InvalidAccountData)
    } else if data[INITIALIZED as int] == 0 {
        Err(TransferError::UninitializedAccount)
    } else {
        Ok(data[DECIMALS as int])
    }
}

/// `Mint::unpack` of the token program's library, reduced to the one field
/// that is read here.  The contract restates the library's layout: unpacking
/// fails with `InvalidAccountData` unless `data` is 82 bytes with both
/// option tags 0 or 1 and the flag 0 or 1, then with `UninitializedAccount`
/// unless the flag is 1, and else yields a mint whose decimals are byte 44.
#[verifier::external_body]
fn unpack_mint_decimals(data: &[u8]) -> (res: Result<u8, TransferError>)
    ensures
        res == mint_decimals(data@),
{
    match Mint::unpack(data) {
        Ok(mint) => Ok(mint.decimals),
        Err(ProgramError::UninitializedAccount) => Err(TransferError::UninitializedAccount),
        Err(_) => Err(TransferError::InvalidAccountData),
    }
}

/// Reads the decimals of a token from the data of its mint account.
///
/// Succeeds exactly on an initialized mint record.  The data is only read.
pub fn resolve_decimals(mint_data: &[u8]) -> (res: Result<u8, TransferError>)
    ensures
        res == mint_decimals(mint_data@),
        res is Ok <==> is_initialized_mint(mint_data@),
{
    unpack_mint_decimals(mint_data)
}

} // verus!
