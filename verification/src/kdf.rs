//! Key derivation: a master password and a salt determine the 32-byte
//! key-encryption key (KEK), through a memory-hard password hash with a
//! compiled-in parameter policy, so that the same password and salt always
//! reproduce the same KEK.

use vstd::prelude::*;
use vstd::string::StringSliceAdditionalSpecFns;

verus! {

/// The 32-byte key that the fixed-parameter Argon2i derivation assigns to a
/// password and a salt. A function of its arguments alone: the parameters
/// (32-byte output, 4 lanes, 64 MiB, 8 iterations, sequential, version 1.3)
/// are compiled in and never vary.
pub uninterp spec fn kek_of(password: Seq<u8>, salt: Seq<u8>) -> Seq<u8>;

/// Relies on `argon2::hash_raw` (the `rust-argon2` crate): deterministic in
/// password, salt and configuration; returns a hash of exactly the configured
/// length. With the fixed configuration it fails only on a salt shorter than
/// 8 bytes or inputs beyond `u32` lengths, which the preconditions exclude.
#[verifier::external_body]
pub fn derive_kek(plaintext: &str, salt: &[u8]) -> (kek: Vec<u8>)
    requires
        8 <= salt@.len() <= u32::MAX,
        plaintext.spec_bytes().len() <= u32::MAX,
    ensures
        kek@ == kek_of(plaintext.spec_bytes(), salt@),
        kek@.len() == 32,
{
    let config = argon2::Config {
        ad: &[],
        hash_length: 32,
        lanes: 4,
        mem_cost: 65536,
        secret: &[],
        thread_mode: argon2::ThreadMode::Sequential,
        time_cost: 8,
        variant: argon2::Variant::Argon2i,
        version: argon2::Version::Version13,
    };
    argon2::hash_raw(plaintext.as_bytes(), salt, &config).unwrap()
}

/// The determinism law of the KDF: the derived KEK is a function of the
/// password and the salt alone — two derivations from equal inputs yield
/// equal keys, across calls, processes and machines, because the remaining
/// parameters are a compiled-in policy.
pub proof fn lemma_kdf_deterministic(
    password1: Seq<u8>,
    salt1: Seq<u8>,
    password2: Seq<u8>,
    salt2: Seq<u8>,
)
    requires
        password1 == password2,
        salt1 == salt2,
    ensures
        kek_of(password1, salt1) == kek_of(password2, salt2),
{
}

} // verus!
