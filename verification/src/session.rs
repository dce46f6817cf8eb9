//! Vault lifecycle: creating the metadata for a fresh vault, and unlocking
//! an existing vault by re-deriving the KEK from the master password and
//! unwrapping the stored key material. A wrong password surfaces here as an
//! explicit integrity failure at the unwrap step — never as a cipher keyed
//! with garbage.

use vstd::prelude::*;
use vstd::string::StringSliceAdditionalSpecFns;
use crate::base64url::b64_decoded;
use crate::base64url::b64_encode;
use crate::base64url::b64_of;
use crate::base64url::is_base64url_char;
use crate::envelope::Cipher;
use crate::error::DataStorageError;
use crate::kdf::derive_kek;
use crate::kdf::kek_of;
use crate::keywrap;
use crate::keywrap::kw_wrap_of;
use crate::metadata::Metadata;
use crate::metadata::quote_free;
use crate::random::generate_dek;
use crate::random::generate_salt;

verus! {

/// How many consecutive wrong master passwords are tolerated before the
/// caller gives up and the process ends with a nonzero status.
pub const MAX_UNLOCK_ATTEMPTS: u32 = 3;

/// The metadata document of a vault whose DEK is `dek`, wrapped under the
/// KEK that `password` and `salt` derive: both fields carry the base64url
/// text of their bytes, and the wrap is the 40-byte authenticated form.
pub open spec fn vault_metadata_for(
    md: Metadata,
    password: Seq<u8>,
    salt: Seq<u8>,
    dek: Seq<u8>,
) -> bool {
    &&& md.salt_text() == b64_of(salt)
    &&& b64_decoded(md.salt_text()) == Some(salt)
    &&& md.wrap_text() == b64_of(kw_wrap_of(kek_of(password, salt), dek))
    &&& b64_decoded(md.wrap_text()) == Some(kw_wrap_of(kek_of(password, salt), dek))
    &&& kw_wrap_of(kek_of(password, salt), dek).len() == 40
}

/// Metadata whose fields can actually key an unlock attempt: the salt
/// decodes and is long enough for the KDF, and the wrap decodes to 40 bytes.
pub open spec fn metadata_usable(md: &Metadata) -> bool {
    &&& b64_decoded(md.salt_text()) matches Some(salt) && 8 <= salt.len() <= u32::MAX
    &&& md.wrap_bytes() is Some
}

/// The KEK that this metadata's salt and the given password derive.
pub open spec fn derived_kek(md: &Metadata, password: Seq<u8>) -> Seq<u8>
    recommends
        b64_decoded(md.salt_text()) is Some,
{
    kek_of(password, b64_decoded(md.salt_text())->Some_0)
}

/// Why an unlock attempt failed: the metadata could not supply usable key
/// material, or the wrap did not verify under the derived KEK — the latter
/// is what a wrong master password looks like.
#[derive(Debug)]
pub enum UnlockError {
    Storage { error: DataStorageError },
    IntegrityFailure,
}

/// Creates the metadata of a fresh vault: a random 16-byte salt, a random
/// 32-byte DEK, the DEK wrapped under the KEK derived from the master
/// password and the salt, both persisted fields as base64url text. The
/// record store of a fresh vault starts empty beside it.
pub fn initialize(master_password: &str) -> (md: Metadata)
    requires
        master_password.spec_bytes().len() <= u32::MAX,
    ensures
        exists|salt: Seq<u8>, dek: Seq<u8>|
            salt.len() == 16 && dek.len() == 32
                && #[trigger] vault_metadata_for(md, master_password.spec_bytes(), salt, dek),
        quote_free(md.salt_text()),
        quote_free(md.wrap_text()),
{
    let salt = generate_salt();
    let dek = generate_dek();
    let kek = derive_kek(master_password, salt.as_slice());
    let wrapped = keywrap::wrap(kek.as_slice(), dek.as_slice());
    let salt_text = b64_encode(salt.as_slice());
    let wrap_text = b64_encode(wrapped.as_slice());
    let ghost salt_chars = salt_text@;
    let ghost wrap_chars = wrap_text@;
    let md = Metadata::new(wrap_text, [salt_text]);
    proof {
        assert(vault_metadata_for(md, master_password.spec_bytes(), salt@, dek@));
        assert forall|i: int| 0 <= i < salt_chars.len() implies salt_chars[i] != '"' by {
            assert(is_base64url_char(salt_chars[i]));
        }
        assert forall|i: int| 0 <= i < wrap_chars.len() implies wrap_chars[i] != '"' by {
            assert(is_base64url_char(wrap_chars[i]));
        }
    }
    md
}

/// Re-derives the KEK from the entered master password and the stored salt,
/// then unwraps the stored wrap. Returns a cipher keyed with the recovered
/// DEK exactly when the wrap verifies; fails with `Storage` when the
/// metadata cannot supply key material, and with `IntegrityFailure` when
/// the wrap is no valid wrap under the derived KEK — a wrong password or
/// tampered bytes.
pub fn unlock(md: &Metadata, master_password: &str) -> (r: Result<Cipher, UnlockError>)
    requires
        master_password.spec_bytes().len() <= u32::MAX,
    ensures
        match r {
            Ok(cipher) => {
                &&& metadata_usable(md)
                &&& cipher.key().len() == 32
                &&& kw_wrap_of(derived_kek(md, master_password.spec_bytes()), cipher.key())
                    == md.wrap_bytes()->Some_0
                &&& forall|dek: Seq<u8>|
                    dek.len() == 32
                        && md.wrap_bytes()->Some_0
                            == kw_wrap_of(derived_kek(md, master_password.spec_bytes()), dek)
                        ==> cipher.key() == dek
            },
            Err(UnlockError::Storage { error }) => {
                &&& !metadata_usable(md)
                &&& error is MetadataCorrupted
            },
            Err(UnlockError::IntegrityFailure) => {
                &&& metadata_usable(md)
                &&& forall|dek: Seq<u8>|
                    dek.len() == 32
                        ==> md.wrap_bytes()->Some_0
                            != kw_wrap_of(derived_kek(md, master_password.spec_bytes()), dek)
            },
        },
{
    let salt = match md.kek_salt() {
        Ok(salt) => salt,
        Err(error) => {
            return Err(UnlockError::Storage { error });
        },
    };
    if salt.len() < 8 || salt.len() > u32::MAX as usize {
        return Err(UnlockError::Storage {
            error: DataStorageError::MetadataCorrupted {
                cause: "data value is tampered.".to_owned(),
            },
        });
    }
    let wrapped = match md.wrap() {
        Ok(wrapped) => wrapped,
        Err(error) => {
            return Err(UnlockError::Storage { error });
        },
    };
    let kek = derive_kek(master_password, salt.as_slice());
    match Cipher::from_unwrap(kek, wrapped) {
        Ok(cipher) => Ok(cipher),
        Err(_) => Err(UnlockError::IntegrityFailure),
    }
}

/// The correct master password always unlocks the vault it created: the
/// metadata that `initialize` makes for a password is usable, and its wrap
/// bytes are exactly the wrap of the vault's DEK under that password's
/// KEK — so `unlock` with the same password cannot fail the integrity
/// check, and the cipher it returns is keyed with that DEK.
pub proof fn lemma_correct_password_unlocks(
    md: Metadata,
    password: Seq<u8>,
    salt: Seq<u8>,
    dek: Seq<u8>,
)
    requires
        vault_metadata_for(md, password, salt, dek),
        8 <= salt.len() <= u32::MAX,
        dek.len() == 32,
    ensures
        metadata_usable(&md),
        derived_kek(&md, password) == kek_of(password, salt),
        md.wrap_bytes() == Some(kw_wrap_of(kek_of(password, salt), dek)),
{
}

} // verus!
