//! What a call decides before it hands anything to the token program.
//!
//! A call reads the addresses of its accounts and the data of the mint, and
//! from these, the program identifier and the payload it either plans one
//! transfer or fails.  The checks are made in a fixed order, and the first
//! one that fails gives the error:
//!
//! 1. the authority that was supplied is the program's derived authority;
//! 2. the payload is an amount;
//! 3. the mint's data could be read and is an initialized mint record.
//!
//! Planning computes on plain values.  No function of this module is given an
//! account handle, so none can change a balance or invoke a program.

use crate::address::Address;
use crate::amount::{decode_amount, le_value, AMOUNT_LEN};
use crate::authority::{
    authorizes, check_authority, derive_authority, derived_authority, AUTHORITY_SEED,
};
use crate::error::TransferError;
use crate::mint::{is_initialized_mint, is_mint_record, mint_decimals, resolve_decimals};
use vstd::prelude::*;

verus! {

/// The addresses of the five accounts of a call.
#[derive(Debug, Clone, Copy, PartialEq, Eq)]
pub struct AccountKeys {
    /// The account that funds are taken from.
    pub source: Address,
    /// The mint of the token.
    pub mint: Address,
    /// The account that funds are moved to.
    pub destination: Address,
    /// The authority over the source account, as the caller names it.
    pub authority: Address,
    /// The program that is to carry out the transfer.
    pub token_program: Address,
}

/// A checked transfer, as it is asked of the token program.  It names one
/// authority and no further signers.
#[derive(Debug, Clone, Copy, PartialEq, Eq)]
pub struct TransferRequest {
    /// The accounts between which funds move, their mint, the authority for
    /// which the program signs, and the program that is asked.
    pub accounts: AccountKeys,
    /// The amount to move, in the token's smallest unit.
    pub amount: u64,
    /// The number of decimals of the token.
    pub decimals: u8,
}

/// A transfer that passed every check, with the bump that signs for its
/// authority.
#[derive(Debug, Clone, Copy, PartialEq, Eq)]
pub struct TransferPlan {
    /// What is asked of the token program.
    pub request: TransferRequest,
    /// The bump of the derived authority.
    pub bump: u8,
}

impl TransferPlan {
    /// The seeds with which the program signs for the authority of the plan:
    /// the seed from which the authority was derived, then the bump.
    pub open spec fn signer_seeds(self) -> Seq<Seq<u8>> {
        seq![AUTHORITY_SEED@, seq![self.bump]]
    }
}

/// The data of the mint as a sequence of bytes, where it could be read.
pub open spec fn mint_bytes(mint_data: Option<&[u8]>) -> Option<Seq<u8>> {
    match mint_data {
        Some(data) => Some(data@),
        None => None,
    }
}

/// The first check that fails, as its error, or `None` where all pass.
pub open spec fn first_failure(
    derived: Option<(Address, u8)>,
    keys: AccountKeys,
    payload: Seq<u8>,
    mint_data: Option<Seq<u8>>,
) -> Option<TransferError> {
    if !authorizes(derived, keys.authority) {
        Some(TransferError::InvalidSeeds)
    } else if payload.len() != AMOUNT_LEN {
        Some(TransferError::InvalidInstructionData)
    } else if mint_data is None {
        Some(TransferError::AccountBorrowFailed)
    } else if !is_mint_record(mint_data->0) {
        Some(TransferError::InvalidAccountData)
    } else if !is_initialized_mint(mint_data->0) {
        Some(TransferError::UninitializedAccount)
    } else {
        None
    }
}

/// Whether `plan` is the transfer that a call asks for when every check
/// passes: between the accounts that the caller named, of the amount that the
/// payload spells, with the decimals that the mint holds, signed with the bump
/// of the derived authority.
pub open spec fn is_plan_of(
    plan: TransferPlan,
    derived: Option<(Address, u8)>,
    keys: AccountKeys,
    payload: Seq<u8>,
    mint_data: Option<Seq<u8>>,
) -> bool {
    &&& plan.request.accounts == keys
    &&& plan.request.amount == le_value(payload)
    &&& mint_data matches Some(data) && mint_decimals(data) == Ok::<u8, TransferError>(
        plan.request.decimals,
    )
    &&& derived matches Some((_, bump)) && plan.bump == bump
}

/// Whether `res` is what planning owes for these inputs: the error of the
/// first failing check, or the plan where none fails.
pub open spec fn is_planned(
    res: Result<TransferPlan, TransferError>,
    derived: Option<(Address, u8)>,
    keys: AccountKeys,
    payload: Seq<u8>,
    mint_data: Option<Seq<u8>>,
) -> bool {
    match first_failure(derived, keys, payload, mint_data) {
        Some(error) => res == Err::<TransferPlan, TransferError>(error),
        None => res matches Ok(plan) && is_plan_of(plan, derived, keys, payload, mint_data),
    }
}

/// Plans the transfer of a call, given the authority that was derived for
/// the program.
///
/// `mint_data` is the data of the mint account, or `None` where it could not
/// be read.  It is looked at only once the authority and the payload have
/// passed.
pub fn plan_with(
    derived: Option<(Address, u8)>,
    keys: &AccountKeys,
    payload: &[u8],
    mint_data: Option<&[u8]>,
) -> (res: Result<TransferPlan, TransferError>)
    ensures
        is_planned(res, derived, *keys, payload@, mint_bytes(mint_data)),
{
    let bump = check_authority(derived, &keys.authority)?;
    let amount = decode_amount(payload)?;
    let decimals = match mint_data {
        Some(data) => resolve_decimals(data)?,
        None => {
            return Err(TransferError::AccountBorrowFailed);
        },
    };
    Ok(TransferPlan { request: TransferRequest { accounts: *keys, amount, decimals }, bump })
}

/// Plans the transfer of a call to the program `program_id`: derives the
/// program's authority, then checks the call against it.
pub fn plan_transfer(
    program_id: &Address,
    keys: &AccountKeys,
    payload: &[u8],
    mint_data: Option<&[u8]>,
) -> (res: Result<TransferPlan, TransferError>)
    ensures
        is_planned(res, derived_authority(program_id@), *keys, payload@, mint_bytes(mint_data)),
{
    let derived = derive_authority(program_id);
    plan_with(derived, keys, payload, mint_data)
}

/// Every check passes exactly when the authority is the derived one, the
/// payload has eight bytes and the mint's data is an initialized mint record.
pub proof fn all_checks_pass_iff(
    derived: Option<(Address, u8)>,
    keys: AccountKeys,
    payload: Seq<u8>,
    mint_data: Option<Seq<u8>>,
)
    ensures
        first_failure(derived, keys, payload, mint_data) is None <==> {
            &&& authorizes(derived, keys.authority)
            &&& payload.len() == AMOUNT_LEN
            &&& mint_data matches Some(data) && is_initialized_mint(data)
        },
{
}

/// A call that names another authority than the derived one fails with
/// `InvalidSeeds`, whatever its payload and its mint are.
pub proof fn other_authority_fails(
    derived: Option<(Address, u8)>,
    keys: AccountKeys,
    payload: Seq<u8>,
    mint_data: Option<Seq<u8>>,
)
    requires
        !authorizes(derived, keys.authority),
    ensures
        first_failure(derived, keys, payload, mint_data) == Some(TransferError::InvalidSeeds),
{
}

/// A call whose payload is not eight bytes long fails: with
/// `InvalidInstructionData` where the authority is the derived one, and with
/// `InvalidSeeds` where it is not, since the authority is checked first.
pub proof fn wrong_payload_length_fails(
    derived: Option<(Address, u8)>,
    keys: AccountKeys,
    payload: Seq<u8>,
    mint_data: Option<Seq<u8>>,
)
    requires
        payload.len() != AMOUNT_LEN,
    ensures
        first_failure(derived, keys, payload, mint_data) == Some(
            if authorizes(derived, keys.authority) {
                TransferError::InvalidInstructionData
            } else {
                TransferError::InvalidSeeds
            },
        ),
{
}

/// A call whose mint data is not an initialized mint record fails.
pub proof fn invalid_mint_fails(
    derived: Option<(Address, u8)>,
    keys: AccountKeys,
    payload: Seq<u8>,
    mint_data: Option<Seq<u8>>,
)
    requires
        !(mint_data matches Some(data) && is_initialized_mint(data)),
    ensures
        first_failure(derived, keys, payload, mint_data) is Some,
{
}

/// The error of a failed check is never one from downstream.
pub proof fn failed_check_is_not_downstream(
    derived: Option<(Address, u8)>,
    keys: AccountKeys,
    payload: Seq<u8>,
    mint_data: Option<Seq<u8>>,
)
    ensures
        first_failure(derived, keys, payload, mint_data) matches Some(error) ==> !(error
            is Downstream),
{
}

} // verus!
