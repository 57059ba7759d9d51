//! The error taxonomy of the confidential transfer protocol.

use vstd::prelude::*;

verus! {

/// Every failure a confidential operation can surface.
///
/// - `SnapshotStale`: the account's ciphertext state changed between the
///   snapshot used for proof generation and its use; retry from a fresh
///   snapshot.
/// - `ProofConstruction`: the amount does not fit the proved range or exceeds
///   the spendable balance, or the keys are malformed; not retryable without
///   correcting the input.
/// - `ContextCreation`: the ledger rejected a proof context account payload,
///   or the rent deposit could not be covered.
/// - `ContextClose`: a proof context account could not be closed.
/// - `Submission`: the consuming instruction failed at the ledger.
/// - `Decryption`: a ciphertext could not be decrypted with the supplied key;
///   signals an account/key mismatch.
#[derive(Clone, Copy, Debug, PartialEq, Eq, Structural)]
pub enum OperationError {
    SnapshotStale,
    ProofConstruction,
    ContextCreation,
    ContextClose,
    Submission,
    Decryption,
}

impl OperationError {
    /// Whether a caller may retry the failed step without changing its input.
    pub fn is_retryable(&self) -> (r: bool)
        ensures
            r <==> (self is SnapshotStale || self is ContextCreation
                || self is ContextClose || self is Submission),
    {
        match self {
            OperationError::SnapshotStale => true,
            OperationError::ContextCreation => true,
            OperationError::ContextClose => true,
            OperationError::Submission => true,
            OperationError::ProofConstruction => false,
            OperationError::Decryption => false,
        }
    }
}

} // verus!
