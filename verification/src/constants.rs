//! Protocol constants: ML-DSA key sizes (NIST FIPS 204) and the bounds on
//! the per-identity enforcement threshold.
use vstd::prelude::*;

verus! {

/// ML-DSA-44 public key size in bytes.
pub const ML_DSA_44_PUBKEY_SIZE: usize = 1312;

/// ML-DSA-44 signature size in bytes.
pub const ML_DSA_44_SIG_SIZE: usize = 2420;

/// ML-DSA-65 public key size in bytes.
pub const ML_DSA_65_PUBKEY_SIZE: usize = 1952;

/// ML-DSA-65 signature size in bytes.
pub const ML_DSA_65_SIG_SIZE: usize = 3293;

/// Maximum supported public key size (with buffer).
pub const MAX_PQC_PUBKEY_SIZE: usize = 2048;

/// Default threshold amount in smallest units (100 * 10^9).
pub const DEFAULT_THRESHOLD: u64 = 100_000_000_000;

/// Minimum threshold amount. Prevents setting the threshold so low that a
/// post-quantum signature would be required for every transfer.
pub const MIN_THRESHOLD: u64 = 1_000_000_000;

/// Maximum threshold amount. Prevents setting the threshold so high that
/// enforcement is effectively disabled.
pub const MAX_THRESHOLD: u64 = 1_000_000_000_000_000_000;

} // verus!
