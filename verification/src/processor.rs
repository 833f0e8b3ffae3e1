//! The one operation of the program: a transfer out of the account that the
//! program's authority owns.
//!
//! A call reads what it needs from its accounts, plans the transfer, and
//! hands the plan to the token program.  The token program moves the funds
//! and makes its own checks of balances, of frozen accounts and of decimals;
//! none of them is repeated here.

use crate::account::{account_key, address_of, borrow_data, borrowed_bytes};
use crate::address::{is_token_program, Address, TOKEN_PROGRAM_ID};
use crate::amount::AMOUNT_LEN;
use crate::authority::{authorizes, derived_authority, AUTHORITY_SEED};
use crate::error::TransferError;
use crate::mint::is_initialized_mint;
use crate::plan::{
    first_failure, mint_bytes, plan_transfer, AccountKeys, TransferPlan, TransferRequest,
};
use solana_program::account_info::AccountInfo;
use solana_program::instruction::Instruction;
use solana_program::program::invoke_signed;
use solana_program::program_error::ProgramError;
use solana_program::pubkey::Pubkey;
use spl_token::instruction::transfer_checked;
use vstd::prelude::*;

verus! {

/// Number of accounts that a call takes.
pub const ACCOUNTS_LEN: usize = 5;

/// Position of the account that funds are taken from.
pub const SOURCE: usize = 0;

/// Position of the mint of the token.
pub const MINT: usize = 1;

/// Position of the account that funds are moved to.
pub const DESTINATION: usize = 2;

/// Position of the authority over the source account.
pub const AUTHORITY: usize = 3;

/// Position of the token program.
pub const TOKEN_PROGRAM: usize = 4;

/// `solana_program::instruction::Instruction`, an instruction as the runtime
/// takes it.  Verus carries such a value through without looking inside.
#[verifier::external_type_specification]
#[verifier::external_body]
pub struct ExInstruction(Instruction);

/// `spl_token::instruction::transfer_checked`: the instruction for the
/// transfer in `request`, with `signers` as further signers.  Its first step
/// is `check_program_account` on the program, and no other step can fail: it
/// builds exactly for `spl_token::id()`.  Of the instruction nothing is said.
#[verifier::external_body]
fn transfer_checked_instruction(request: &TransferRequest, signers: &[Address]) -> (res: Result<
    Instruction,
    ProgramError,
>)
    ensures
        res is Ok <==> request.accounts.token_program@ == TOKEN_PROGRAM_ID@,
{
    let signers: Vec<Pubkey> = signers.iter().map(|key| Pubkey::new_from_array(*key)).collect();
    let signers: Vec<&Pubkey> = signers.iter().collect();
    transfer_checked(
        &Pubkey::new_from_array(request.accounts.token_program),
        &Pubkey::new_from_array(request.accounts.source),
        &Pubkey::new_from_array(request.accounts.mint),
        &Pubkey::new_from_array(request.accounts.destination),
        &Pubkey::new_from_array(request.accounts.authority),
        &signers,
        request.amount,
        request.decimals,
    )
}

/// `solana_program::program::invoke_signed`: runs `instruction` in the
/// program that it names, on `account_infos`, with the program-derived
/// addresses of `signers_seeds` as signers.  What the invoked program does,
/// and whether it succeeds, is not known here: nothing is said of the result.
pub assume_specification[ solana_program::program::invoke_signed ](
    instruction: &Instruction,
    account_infos: &[AccountInfo],
    signers_seeds: &[&[&[u8]]],
) -> (res: Result<(), ProgramError>)
;

/// What becomes of an answer from downstream: success stays success, and an
/// error is passed on unchanged, marked as coming from downstream.
pub open spec fn surfaced<T>(outcome: Result<T, ProgramError>) -> Result<T, TransferError> {
    match outcome {
        Ok(value) => Ok(value),
        Err(error) => Err(TransferError::Downstream(error)),
    }
}

/// Whether `res` can come out of a transfer that was handed on: success, or
/// an error from downstream.
pub open spec fn is_downstream_outcome(res: Result<(), TransferError>) -> bool {
    res is Ok || res matches Err(TransferError::Downstream(_))
}

/// Turns an answer from downstream into a result of this library.  The error
/// is neither interpreted nor replaced.
pub fn surface<T>(outcome: Result<T, ProgramError>) -> (res: Result<T, TransferError>)
    ensures
        res == surfaced(outcome),
{
    match outcome {
        Ok(value) => Ok(value),
        Err(error) => Err(TransferError::Downstream(error)),
    }
}

/// Hands a planned transfer to the token program, signing for the authority
/// with its seeds: the fixed seed, then the bump.
///
/// The request names a single authority and no further signers.  `accounts`
/// are the handles of the accounts that the plan names.  The balances change
/// as the token program changes them; this function writes to no account.
/// Whatever comes back from downstream is the result.
pub fn dispatch(plan: &TransferPlan, accounts: &[AccountInfo]) -> (res: Result<(), TransferError>)
    ensures
        is_dispatched(res, plan.request.accounts.token_program),
{
    let no_signers: [Address; 0] = [];
    let instruction = surface(transfer_checked_instruction(&plan.request, no_signers.as_slice()))?;
    let bump_seed: [u8; 1] = [plan.bump];
    let seeds: [&[u8]; 2] = [AUTHORITY_SEED.as_slice(), bump_seed.as_slice()];
    let signers_seeds: [&[&[u8]]; 1] = [seeds.as_slice()];
    proof {
        // What is handed on: no further signers for the token program, and for
        // the runtime one signer, with the seeds of the plan.
        assert(no_signers@.len() == 0);
        assert(signers_seeds@.len() == 1 && signers_seeds@[0]@ == seeds@);
        assert(seeds@.len() == 2);
        assert(seeds@[0]@ == AUTHORITY_SEED@ && seeds@[1]@ == seq![plan.bump]);
        assert(seeds@.map_values(|seed: &[u8]| seed@) =~= plan.signer_seeds());
    }
    surface(invoke_signed(&instruction, accounts, signers_seeds.as_slice()))
}

/// Whether `res` can come out of handing on a transfer that is asked of the
/// program `token_program`.  Asked of another program than the token
/// program, it fails with an error from downstream.  Asked of the token
/// program, it succeeds or fails with an error from downstream, as the
/// invocation does.
pub open spec fn is_dispatched(res: Result<(), TransferError>, token_program: Address) -> bool {
    if is_token_program(token_program@) {
        is_downstream_outcome(res)
    } else {
        res matches Err(TransferError::Downstream(_))
    }
}

/// The addresses of the accounts of a call, by their positions.
pub open spec fn keys_of(accounts: Seq<AccountInfo>) -> AccountKeys {
    AccountKeys {
        source: address_of(accounts[SOURCE as int]),
        mint: address_of(accounts[MINT as int]),
        destination: address_of(accounts[DESTINATION as int]),
        authority: address_of(accounts[AUTHORITY as int]),
        token_program: address_of(accounts[TOKEN_PROGRAM as int]),
    }
}

/// Whether `res` is a result that a call can have when its accounts hold the
/// addresses `keys` and the mint data `mint_data`: the error of the first
/// check that fails, or else what comes of handing the transfer on.
pub open spec fn is_outcome_for(
    res: Result<(), TransferError>,
    derived: Option<(Address, u8)>,
    keys: AccountKeys,
    payload: Seq<u8>,
    mint_data: Option<Seq<u8>>,
) -> bool {
    match first_failure(derived, keys, payload, mint_data) {
        Some(error) => res == Err::<(), TransferError>(error),
        None => is_dispatched(res, keys.token_program),
    }
}

/// A call that fails a check ends with the error of that check, which is
/// none that comes from downstream.
pub proof fn failed_check_ends_the_call(
    res: Result<(), TransferError>,
    derived: Option<(Address, u8)>,
    keys: AccountKeys,
    payload: Seq<u8>,
    mint_data: Option<Seq<u8>>,
)
    requires
        is_outcome_for(res, derived, keys, payload, mint_data),
        first_failure(derived, keys, payload, mint_data) is Some,
    ensures
        res == Err::<(), TransferError>(first_failure(derived, keys, payload, mint_data)->0),
        !is_downstream_outcome(res),
{
}

/// A call succeeds only where every check passes and the transfer is asked
/// of the token program: under the derived authority, with a payload of eight
/// bytes and an initialized mint.
pub proof fn success_needs_every_check(
    res: Result<(), TransferError>,
    derived: Option<(Address, u8)>,
    keys: AccountKeys,
    payload: Seq<u8>,
    mint_data: Option<Seq<u8>>,
)
    requires
        is_outcome_for(res, derived, keys, payload, mint_data),
        res is Ok,
    ensures
        authorizes(derived, keys.authority),
        payload.len() == AMOUNT_LEN,
        mint_data matches Some(data) && is_initialized_mint(data),
        is_token_program(keys.token_program@),
{
}

/// Processes one instruction of the program `program_id`.
///
/// `accounts` are, in this order, the source of the funds, the mint, the
/// destination, the authority and the token program; accounts after the
/// fifth are ignored.  `instruction_data` is the amount.  The first failure
/// ends the call:
///
/// 1. fewer than five accounts: `NotEnoughAccountKeys`;
/// 2. the fourth account is not the program's derived authority:
///    `InvalidSeeds`;
/// 3. the payload is not eight bytes: `InvalidInstructionData`;
/// 4. the mint's data cannot be read, or is no initialized mint record:
///    `AccountBorrowFailed`, `InvalidAccountData` or `UninitializedAccount`;
/// 5. the fifth account is not the token program, or the token program
///    refuses the transfer: the error from downstream, as `Downstream`.
///
/// Only in step 5 is another program invoked, so only there can a balance
/// change.
///
/// The addresses of the accounts are fixed by the handles, and the contract
/// speaks of them.  The data of the mint is read while the call runs: the
/// result is the one that [`first_failure`] gives for some mint data.
pub fn process_instruction(
    program_id: &Address,
    accounts: &[AccountInfo],
    instruction_data: &[u8],
) -> (res: Result<(), TransferError>)
    ensures
        accounts@.len() < ACCOUNTS_LEN <==> res == Err::<(), TransferError>(
            TransferError::NotEnoughAccountKeys,
        ),
        accounts@.len() >= ACCOUNTS_LEN ==> (!authorizes(
            derived_authority(program_id@),
            address_of(accounts@[AUTHORITY as int]),
        ) <==> res == Err::<(), TransferError>(TransferError::InvalidSeeds)),
        accounts@.len() >= ACCOUNTS_LEN && authorizes(
            derived_authority(program_id@),
            address_of(accounts@[AUTHORITY as int]),
        ) ==> (instruction_data@.len() != AMOUNT_LEN <==> res == Err::<(), TransferError>(
            TransferError::InvalidInstructionData,
        )),
        accounts@.len() >= ACCOUNTS_LEN ==> exists|mint_data: Option<Seq<u8>>|
            is_outcome_for(
                res,
                derived_authority(program_id@),
                keys_of(accounts@),
                instruction_data@,
                mint_data,
            ),
{
    if accounts.len() < ACCOUNTS_LEN {
        return Err(TransferError::NotEnoughAccountKeys);
    }
    let keys = AccountKeys {
        source: account_key(&accounts[SOURCE]),
        mint: account_key(&accounts[MINT]),
        destination: account_key(&accounts[DESTINATION]),
        authority: account_key(&accounts[AUTHORITY]),
        token_program: account_key(&accounts[TOKEN_PROGRAM]),
    };
    assert(keys == keys_of(accounts@));
    let ghost derived = derived_authority(program_id@);
    let ghost mut read: Option<Seq<u8>> = None;
    let planned = {
        let mint_borrow = borrow_data(&accounts[MINT]);
        let mint_data: Option<&[u8]> = match &mint_borrow {
            Some(data) => Some(borrowed_bytes(data)),
            None => None,
        };
        proof {
            read = mint_bytes(mint_data);
        }
        plan_transfer(program_id, &keys, instruction_data, mint_data)
    };
    match planned {
        Ok(plan) => {
            let res = dispatch(&plan, &accounts[0..ACCOUNTS_LEN]);
            assert(is_outcome_for(res, derived, keys, instruction_data@, read));
            res
        },
        Err(error) => {
            assert(is_outcome_for(Err(error), derived, keys, instruction_data@, read));
            Err(error)
        },
    }
}

} // verus!
