//! A token transfer that only a program's own authority can make, for a
//! program that runs inside the Solana runtime.
//!
//! One call moves tokens out of an account that the program itself controls.
//! The controlling authority is a program-derived address: it has no private
//! key, and only the program can sign for it, by handing the runtime the seeds
//! from which the address was derived.
//!
//! A call reads the addresses of its accounts and the data of the mint
//! ([`account`]), plans the transfer ([`plan`]) and hands the plan to the
//! token program ([`processor`]).  Planning makes three checks in a fixed
//! order and stops at the first that fails:
//!
//! 1. [`authority`]: the authority that the caller supplied is the address
//!    derived for the program;
//! 2. [`amount`]: the instruction payload is an amount;
//! 3. [`mint`]: the mint account holds an initialized mint record, from which
//!    the number of decimals is taken.
//!
//! The library keeps no state between calls.

pub mod account;
pub mod address;
pub mod amount;
pub mod authority;
pub mod error;
pub mod mint;
pub mod plan;
pub mod processor;
