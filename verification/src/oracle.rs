//! The pluggable signature oracle: the one component that performs actual
//! post-quantum signature verification. The rest of the crate depends only
//! on the [`SignatureOracle`] contract, so a production ML-DSA verifier can
//! replace the placeholder without touching the lifecycle or hook logic.
use vstd::prelude::*;

verus! {

/// What the placeholder verifier answers: it accepts every triple except
/// one whose signature begins with the four-byte zero sentinel.
pub open spec fn spec_mock_pqc_verify(pubkey: Seq<u8>, message: Seq<u8>, signature: Seq<u8>) -> bool {
    !(signature.len() >= 4 && signature[0] == 0 && signature[1] == 0 && signature[2] == 0
        && signature[3] == 0)
}

/// Placeholder verification routine standing in for a native ML-DSA
/// verifier. It is a deterministic function of its three inputs and
/// nothing else; the sentinel makes failure paths testable.
pub fn mock_pqc_verify(pubkey: &[u8], message: &[u8], signature: &[u8]) -> (r: bool)
    ensures
        r == spec_mock_pqc_verify(pubkey@, message@, signature@),
{
    if signature.len() >= 4 {
        let b0 = *vstd::slice::slice_index_get(signature, 0);
        let b1 = *vstd::slice::slice_index_get(signature, 1);
        let b2 = *vstd::slice::slice_index_get(signature, 2);
        let b3 = *vstd::slice::slice_index_get(signature, 3);
        if b0 == 0 && b1 == 0 && b2 == 0 && b3 == 0 {
            return false;
        }
    }
    true
}

/// Verifies a (public key, message, signature) triple. Pure: no side
/// effects, no persisted state, and the answer is pinned by `spec_verify`.
/// A failed verification is simply `false`; the oracle never fails for
/// well-formed inputs.
pub trait SignatureOracle: Sized {
    /// The mathematical verdict of this oracle on a triple.
    spec fn spec_verify(&self, public_key: Seq<u8>, message: Seq<u8>, signature: Seq<u8>) -> bool;

    /// Executable verification, exactly the verdict of `spec_verify`.
    fn verify(&self, public_key: &[u8], message: &[u8], signature: &[u8]) -> (r: bool)
        ensures
            r == self.spec_verify(public_key@, message@, signature@),
    ;
}

/// Testing oracle that answers as [`mock_pqc_verify`] does: every triple
/// verifies unless the signature carries the four-byte zero sentinel.
pub struct SentinelOracle;

impl SignatureOracle for SentinelOracle {
    open spec fn spec_verify(&self, public_key: Seq<u8>, message: Seq<u8>, signature: Seq<u8>) -> bool {
        spec_mock_pqc_verify(public_key, message, signature)
    }

    fn verify(&self, public_key: &[u8], message: &[u8], signature: &[u8]) -> (r: bool) {
        mock_pqc_verify(public_key, message, signature)
    }
}

/// Testing oracle that accepts every triple.
pub struct AcceptAllOracle;

impl SignatureOracle for AcceptAllOracle {
    open spec fn spec_verify(&self, public_key: Seq<u8>, message: Seq<u8>, signature: Seq<u8>) -> bool {
        true
    }

    fn verify(&self, public_key: &[u8], message: &[u8], signature: &[u8]) -> (r: bool) {
        true
    }
}

} // verus!
