//! Key wrapping: a 32-byte data-encryption key (DEK) is stored only as a
//! 40-byte authenticated ciphertext under the key-encryption key (KEK).
//! The deterministic RFC 3394 transform carries its own integrity check, so
//! unwrapping under a wrong KEK, or unwrapping altered bytes, fails closed
//! instead of yielding a plausible-looking key.

use vstd::prelude::*;
use aes_kw::KeyInit;

verus! {

/// The 40 bytes that the RFC 3394 AES-256 key wrap assigns to a 32-byte key
/// under a 32-byte KEK. Deterministic: a function of its arguments alone.
pub uninterp spec fn kw_wrap_of(kek: Seq<u8>, dek: Seq<u8>) -> Seq<u8>;

#[verifier::external_type_specification]
#[verifier::external_body]
pub struct ExAesKwError(aes_kw::Error);

/// Wraps a 32-byte DEK under a 32-byte KEK into the 40-byte authenticated
/// form that the vault metadata persists.
///
/// Relies on `aes_kw::AesKw<Aes256>::wrap_key` (RFC 3394): deterministic in
/// key and data, and the output is the input's length plus the 8-byte
/// integrity block. With a 32-byte key and a 40-byte buffer it cannot fail.
#[verifier::external_body]
pub fn wrap(kek: &[u8], dek: &[u8]) -> (wrapped: Vec<u8>)
    requires
        kek@.len() == 32,
        dek@.len() == 32,
    ensures
        wrapped@ == kw_wrap_of(kek@, dek@),
        wrapped@.len() == 40,
{
    let key: [u8; 32] = kek.try_into().unwrap();
    let cipher = aes_kw::KwAes256::new(&key.into());
    let mut buf = [0u8; 40];
    cipher.wrap_key(dek, &mut buf).unwrap();
    buf.to_vec()
}

/// Recovers the DEK from its 40-byte wrapped form, failing closed when the
/// KEK is wrong or the bytes were altered.
///
/// Relies on `aes_kw::AesKw<Aes256>::unwrap_key` (RFC 3394): it inverts
/// `wrap_key`, so it accepts exactly the bytes that are the wrap of some
/// 32-byte key under this KEK and then returns that key; on anything else
/// its integrity check fails and it returns no key data.
#[verifier::external_body]
pub fn unwrap(kek: &[u8], wrapped: &[u8]) -> (r: Result<Vec<u8>, aes_kw::Error>)
    requires
        kek@.len() == 32,
        wrapped@.len() == 40,
    ensures
        match r {
            Ok(dek) => {
                &&& dek@.len() == 32
                &&& kw_wrap_of(kek@, dek@) == wrapped@
                &&& forall|d: Seq<u8>|
                    d.len() == 32 && wrapped@ == kw_wrap_of(kek@, d) ==> dek@ == d
            },
            Err(_) => forall|d: Seq<u8>| d.len() == 32 ==> wrapped@ != kw_wrap_of(kek@, d),
        },
{
    let key: [u8; 32] = kek.try_into().unwrap();
    let cipher = aes_kw::KwAes256::new(&key.into());
    let mut buf = [0u8; 32];
    match cipher.unwrap_key(wrapped, &mut buf) {
        Ok(_) => Ok(buf.to_vec()),
        Err(e) => Err(e),
    }
}

} // verus!
