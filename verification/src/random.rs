//! Fresh randomness for vault creation: the KDF salt and the
//! data-encryption key both come from the operating system's source.

use vstd::prelude::*;

verus! {

/// Byte length of the key-derivation salt drawn at vault creation.
pub const SALT_LEN: usize = 16;

/// Byte length of the data-encryption key.
pub const DEK_LEN: usize = 32;

/// Relies on `getrandom::fill`: overwrites the buffer in place with bytes
/// from the operating system's randomness source, keeping its length.
/// Aborts the process if that source fails, which no input can cause.
#[verifier::external_body]
fn fill_random(dest: &mut Vec<u8>)
    ensures
        final(dest)@.len() == old(dest)@.len(),
{
    getrandom::fill(dest.as_mut_slice()).unwrap();
}

/// Draws the 16-byte salt that a new vault derives its KEK from.
pub fn generate_salt() -> (salt: Vec<u8>)
    ensures
        salt@.len() == SALT_LEN,
{
    let mut salt: Vec<u8> = vec![0u8; SALT_LEN];
    fill_random(&mut salt);
    salt
}

/// Draws the 32-byte data-encryption key of a new vault.
pub fn generate_dek() -> (dek: Vec<u8>)
    ensures
        dek@.len() == DEK_LEN,
{
    let mut dek: Vec<u8> = vec![0u8; DEK_LEN];
    fill_random(&mut dek);
    dek
}

} // verus!
