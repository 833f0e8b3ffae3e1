//! Addresses of accounts and programs.

use vstd::prelude::*;

verus! {

/// Number of bytes in an address.
pub const ADDRESS_LEN: usize = 32;

/// The identifier of an account or of a program: 32 bytes, which the runtime
/// calls a public key whether or not a private key belongs to it.
pub type Address = [u8; 32];

/// The address under which the token program is deployed, which reads
/// `TokenkegQfeZyiNwAJbNbGKPFXCWuBvf9Ss623VQ5DA` in base 58.
pub const TOKEN_PROGRAM_ID: [u8; 32] = [
    6, 221, 246, 225, 215, 101, 161, 147, 217, 203, 225, 70, 206, 235, 121, 172,
    28, 180, 133, 237, 95, 91, 55, 145, 58, 140, 245, 133, 126, 255, 0, 169,
];

/// Whether `address` is the address of the token program.
pub open spec fn is_token_program(address: Seq<u8>) -> bool {
    address == TOKEN_PROGRAM_ID@
}

/// Tells whether two addresses are the same, byte for byte.
pub fn same_address(a: &Address, b: &Address) -> (same: bool)
    ensures
        same <==> a@ == b@,
{
    let mut i: usize = 0;
    while i < ADDRESS_LEN
        invariant
            i <= ADDRESS_LEN,
            forall|j: int| 0 <= j < i ==> a@[j] == b@[j],
        decreases ADDRESS_LEN - i,
    {
        if a[i] != b[i] {
            return false;
        }
        i = i + 1;
    }
    assert(a@ =~= b@);
    true
}

} // verus!
