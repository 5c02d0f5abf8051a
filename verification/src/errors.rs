//! Error kinds raised by the codec and by the batch resolvers.

use vstd::prelude::*;

use crate::ids::HgId;

verus! {

/// Failure to rebuild a domain value from its wire form.
#[derive(Clone, Debug, PartialEq, Eq)]
pub enum WireToApiConversionError {
    /// A field that the domain value needs, given the other fields that are
    /// present, is absent from the wire value. Carries the field's name.
    CannotPopulateRequiredField(&'static str),
}

/// A failure reported by the repository store, kept as the cause of a
/// resolver error.
#[derive(Clone, Debug, PartialEq, Eq)]
pub struct StorageError {
    pub message: String,
}

/// Failures of the batch resolvers.
#[derive(Clone, Debug, PartialEq, Eq)]
pub enum ErrorKind {
    /// The store failed while resolving a location to ancestor hashes.
    CommitLocationToHashRequestFailed(StorageError),
    /// The store failed while fetching historical commit data.
    CommitRevlogDataRequestFailed(StorageError),
    /// The store holds no commit with this hash.
    HgIdNotFound(HgId),
}

impl WireToApiConversionError {
    /// The name of the field that the error is about.
    pub fn field(&self) -> (name: &'static str)
        ensures
            *self == WireToApiConversionError::CannotPopulateRequiredField(name),
    {
        match self {
            WireToApiConversionError::CannotPopulateRequiredField(name) => name,
        }
    }
}

} // verus!
