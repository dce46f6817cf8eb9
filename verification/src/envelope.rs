//! The envelope cipher: authenticated encryption of credential payloads
//! under the unwrapped data-encryption key. A token is self-describing text
//! that, under the right key, round-trips to the exact plaintext; under a
//! wrong key or after tampering, decryption fails instead of returning
//! partial or wrong data.

use vstd::prelude::*;
use crate::keywrap;
use crate::keywrap::kw_wrap_of;

verus! {

/// The plaintext that a fernet token carries under a 32-byte key when its
/// authentication tag verifies, `None` when it does not. This part of token
/// verification is a function of key and token alone. Fernet's `decrypt`
/// additionally rejects a token whose embedded timestamp lies in the future
/// beyond its clock-skew allowance, so acceptance itself also depends on the
/// clock; nothing here claims otherwise.
pub uninterp spec fn fernet_plaintext_of(key: Seq<u8>, token: Seq<char>) -> Option<Seq<u8>>;

#[verifier::external_type_specification]
#[verifier::external_body]
pub struct ExDecryptionError(fernet::DecryptionError);

/// The cipher that encrypts the credential payloads. The only way to build
/// one is [`Cipher::from_unwrap`], so a cipher in hand proves that the
/// wrapped key material passed its integrity check.
pub struct Cipher {
    dek: Vec<u8>,
}

impl Cipher {
    /// The 32-byte data-encryption key this cipher works with.
    pub closed spec fn key(&self) -> Seq<u8> {
        self.dek@
    }

    #[verifier::type_invariant]
    spec fn wf(self) -> bool {
        self.dek@.len() == 32
    }

    /// Recovers the DEK by unwrapping the persisted wrap under the KEK and
    /// keys a cipher with it. Succeeds exactly when the wrapped bytes are
    /// the wrap of some 32-byte key under this KEK — so a wrong master
    /// password or altered key material fails here, not later.
    pub fn from_unwrap(kek: Vec<u8>, wrapped_key: Vec<u8>) -> (r: Result<Self, aes_kw::Error>)
        requires
            kek@.len() == 32,
            wrapped_key@.len() == 40,
        ensures
            match r {
                Ok(cipher) => {
                    &&& cipher.key().len() == 32
                    &&& kw_wrap_of(kek@, cipher.key()) == wrapped_key@
                    &&& forall|dek: Seq<u8>|
                        dek.len() == 32 && wrapped_key@ == kw_wrap_of(kek@, dek)
                            ==> cipher.key() == dek
                },
                Err(_) => forall|dek: Seq<u8>|
                    dek.len() == 32 ==> wrapped_key@ != kw_wrap_of(kek@, dek),
            },
    {
        match keywrap::unwrap(kek.as_slice(), wrapped_key.as_slice()) {
            Ok(dek) => Ok(Cipher { dek }),
            Err(e) => Err(e),
        }
    }

    /// Encrypts a payload into a self-describing token.
    ///
    /// Relies on `fernet::Fernet::encrypt`: the token it returns carries a
    /// fresh random nonce and a current timestamp, authenticates under this
    /// key, and decrypts to exactly the payload.
    #[verifier::external_body]
    pub fn encrypt(&self, data: &[u8]) -> (token: String)
        ensures
            fernet_plaintext_of(self.key(), token@) == Some(data@),
    {
        let f = fernet::Fernet::new(&base64_url::encode(&self.dek)).unwrap();
        f.encrypt(data)
    }

    /// Decrypts a token, failing on malformed text, a failed authentication
    /// tag, or a wrong key.
    ///
    /// Relies on `fernet::Fernet::decrypt`: a returned plaintext is exactly
    /// what the token authentically carries under this key; a token that
    /// carries nothing under this key is always rejected. (The converse is
    /// not promised: `decrypt` also rejects a token stamped too far in the
    /// future, a condition on the clock rather than on key and token.)
    #[verifier::external_body]
    pub fn decrypt(&self, ciphertext: &str) -> (r: Result<Vec<u8>, fernet::DecryptionError>)
        ensures
            match r {
                Ok(plaintext) => fernet_plaintext_of(self.key(), ciphertext@)
                    == Some(plaintext@),
                Err(_) => true,
            },
            fernet_plaintext_of(self.key(), ciphertext@) is None ==> r is Err,
    {
        let f = fernet::Fernet::new(&base64_url::encode(&self.dek)).unwrap();
        f.decrypt(ciphertext)
    }

    /// Mints a fresh random 32-byte key, encoded as URL-safe base64 text —
    /// the form a data-encryption key is born in at vault creation.
    pub fn generate_key() -> (key: String)
        ensures
            exists|dek: Seq<u8>|
                {
                    &&& dek.len() == 32
                    &&& key@ == crate::base64url::b64_of(dek)
                    &&& crate::base64url::b64_decoded(key@) == Some(dek)
                },
    {
        let dek = crate::random::generate_dek();
        let key = crate::base64url::b64_encode(dek.as_slice());
        proof {
            let witness = dek@;
            assert(witness.len() == 32 && key@ == crate::base64url::b64_of(witness)
                && crate::base64url::b64_decoded(key@) == Some(witness));
        }
        key
    }

    /// Decrypts a token and reads the payload as text — the reveal operation
    /// on a stored credential. Succeeds exactly when the cipher accepts the
    /// token and the payload is valid UTF-8.
    pub fn reveal_password(&self, ciphertext: &str) -> (r: Result<String, ()>)
        ensures
            match r {
                Ok(password) => {
                    &&& fernet_plaintext_of(self.key(), ciphertext@)
                        == Some(vstd::utf8::encode_utf8(password@))
                    &&& vstd::utf8::valid_utf8(vstd::utf8::encode_utf8(password@))
                },
                Err(()) => true,
            },
    {
        match self.decrypt(ciphertext) {
            Ok(plaintext) => utf8_to_string(plaintext),
            Err(_) => Err(()),
        }
    }
}

/// Relies on `String::from_utf8`: succeeds exactly on valid UTF-8 and
/// returns the text whose encoding is the input.
#[verifier::external_body]
fn utf8_to_string(bytes: Vec<u8>) -> (r: Result<String, ()>)
    ensures
        match r {
            Ok(text) => vstd::utf8::encode_utf8(text@) == bytes@ && vstd::utf8::valid_utf8(bytes@),
            Err(()) => !vstd::utf8::valid_utf8(bytes@),
        },
{
    match String::from_utf8(bytes) {
        Ok(text) => Ok(text),
        Err(_) => Err(()),
    }
}

} // verus!
