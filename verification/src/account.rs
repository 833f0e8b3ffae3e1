//! The accounts of a call, as the runtime hands them over.
//!
//! An `AccountInfo` is a handle: an address and flags, and shared, mutable
//! access to the account's balance and data, which live in the runtime's
//! memory.  This library reads the address of an account and the data of the
//! mint, and passes the handles on to the token program.  It never writes
//! through one.
//!
//! Verus does not see inside a handle.  The address has a name in contracts,
//! [`address_of`]; the data of an account is whatever is found when it is
//! read.

use crate::address::Address;
use solana_program::account_info::AccountInfo;
use std::cell::Ref;
use vstd::prelude::*;

verus! {

/// `solana_program::account_info::AccountInfo`, the runtime's account handle.
/// Verus carries such a value through without looking inside.
#[verifier::external_type_specification]
#[verifier::external_body]
pub struct ExAccountInfo<'a>(AccountInfo<'a>);

/// `std::cell::Ref`, a shared borrow of what a `RefCell` holds, which ends
/// when the value is dropped.  Verus carries such a value through without
/// looking inside.
#[verifier::external_type_specification]
#[verifier::external_body]
#[verifier::reject_recursive_types(T)]
pub struct ExRef<'b, T: ?Sized>(Ref<'b, T>);

/// The address of the account that a handle stands for.
///
/// This names the field `key` of an `AccountInfo`, as the bytes that
/// `Pubkey::to_bytes` gives.  The field is a shared reference that is set when
/// the handle is made and never changes, so the address depends on the handle
/// only.  The balance and the data of an account can change behind a handle,
/// and get no such name.
pub uninterp spec fn address_of(account: AccountInfo) -> Address;

/// The field `key` of an `AccountInfo`, as the bytes that `Pubkey::to_bytes`
/// gives: the address of the account.
#[verifier::external_body]
pub(crate) fn account_key(account: &AccountInfo) -> (key: Address)
    ensures
        key == address_of(*account),
{
    account.key.to_bytes()
}

/// `AccountInfo::try_borrow_data`: a shared borrow of the data of an account,
/// or `None` where the call fails, which it does when the data is mutably
/// borrowed at that time.  Nothing is claimed of the result.
#[verifier::external_body]
pub(crate) fn borrow_data<'r>(account: &'r AccountInfo) -> (data: Option<Ref<'r, &'r mut [u8]>>) {
    account.try_borrow_data().ok()
}

/// `Ref::deref` on borrowed account data: the bytes behind the borrow, for as
/// long as it lasts.  Nothing is claimed of them: they are whatever the
/// account holds.
#[verifier::external_body]
pub(crate) fn borrowed_bytes<'r>(data: &'r Ref<&mut [u8]>) -> (bytes: &'r [u8]) {
    data
}

} // verus!
