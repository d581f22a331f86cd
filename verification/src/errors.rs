use vstd::prelude::*;

verus! {

/// The library's error taxonomy.
///
/// `Validation` marks a string that names no coffee type; `Decode` a malformed
/// opaque global id; `StoreWrite` and `StoreRead` a failed remote store call
/// (the message is supplied by the caller at the store boundary); and
/// `DataCorruption` a persisted record that violates the write-time shape
/// invariant, carrying the offending attribute value.
#[derive(Debug, PartialEq)]
pub enum DomainError {
    Validation { value: String },
    Decode,
    StoreWrite { message: String },
    StoreRead { message: String },
    DataCorruption { value: String },
}

} // verus!
