//! Caller-facing error kinds. Every rejected operation surfaces the
//! specific kind, never a generic failure; none is retried internally.
use vstd::prelude::*;

verus! {

/// Errors of the identity lifecycle operations.
#[derive(Clone, Copy, Debug, PartialEq, Eq)]
pub enum QuresisError {
    /// The post-quantum public key is not 1312 (ML-DSA-44) or 1952
    /// (ML-DSA-65) bytes long.
    InvalidKeyLength,
    /// Quantum signature verification failed.
    InvalidQuantumSignature,
    /// The quantum identity is currently frozen.
    IdentityFrozen,
    /// The signature size is invalid.
    InvalidSignatureSize,
    /// The message size exceeds the maximum allowed.
    MessageTooLarge,
    /// Sequence number mismatch; reserved for per-signature nonce use.
    SequenceMismatch,
    /// The threshold lies outside [MIN_THRESHOLD, MAX_THRESHOLD].
    InvalidThreshold,
}

/// Errors of the transfer-hook operations.
#[derive(Clone, Copy, Debug, PartialEq, Eq)]
pub enum QuresisHookError {
    /// A quantum signature is required for this transfer amount.
    QuantumSignatureRequired,
    /// Quantum signature verification failed.
    InvalidQuantumSignature,
    /// The sender's quantum identity is frozen.
    IdentityFrozen,
    /// The transfer amount exceeds the allowed limit without
    /// post-quantum authorization.
    TransferExceedsLimit,
    /// No hook configuration exists for this asset.
    HookNotInitialized,
    /// The stored identity record is malformed.
    InvalidIdentityData,
    /// The caller is not the record's designated authority.
    Unauthorized,
}

} // verus!
