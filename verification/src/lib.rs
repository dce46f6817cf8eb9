//! Core of a local, single-user encrypted credential store: key derivation,
//! key wrapping, the envelope cipher over credential payloads, the metadata
//! document that persists the wrapped key material, and the record store with
//! its dense-id invariant.

pub mod base64url;
pub mod envelope;
pub mod error;
pub mod export;
pub mod kdf;
pub mod keywrap;
pub mod metadata;
pub mod random;
pub mod session;
pub mod vault;
