//! Error taxonomy of the storage layer.

use vstd::prelude::*;

verus! {

/// What can go wrong while loading or operating on the persisted vault:
/// a missing file is an operator error, a file that fails structural or
/// length checks indicates tampering or corruption, and everything the
/// storage engine itself reports is collapsed into one opaque kind.
#[derive(Debug)]
pub enum DataStorageError {
    FileNotFound { path: String },
    MetadataCorrupted { cause: String },
    DatabaseError { cause: String },
}

impl DataStorageError {
    /// True exactly on the corruption kind; callers that must fail closed on
    /// tampering test this without caring about the recorded cause.
    pub fn is_corrupted(&self) -> (r: bool)
        ensures
            r == (self is MetadataCorrupted),
    {
        match self {
            DataStorageError::MetadataCorrupted { .. } => true,
            _ => false,
        }
    }
}

} // verus!
