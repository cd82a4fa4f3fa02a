use vstd::prelude::*;

verus! {

/// The ways in which checking a merge-mined proof of work can fail.
#[derive(Clone, Copy, Debug, PartialEq, Eq, Structural)]
pub enum MergeMineError {
    /// The payload carried in the header's proof-of-work field is malformed.
    DeserializeError,
    /// The donor data could not be serialized into the hashing input.
    SerializeError,
    /// Hashing failed: the engine reported an error, the hashing input is not text, or
    /// the hash is zero.
    HashingError,
    /// The coinbase transaction does not commit to the auxiliary header.
    ValidationError,
}

} // verus!
