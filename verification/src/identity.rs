//! The quantum identity record and its lifecycle: registration, key
//! rotation with old-key re-authorization, freeze toggling and threshold
//! updates. Each operation is an atomic transition on one record; storage,
//! the clock and caller authentication are the surrounding runtime's job,
//! so operations take the current slot and timestamp as arguments and
//! return the notification to append to the event sink.
use vstd::prelude::*;

use crate::constants::DEFAULT_THRESHOLD;
use crate::constants::MAX_THRESHOLD;
use crate::constants::MIN_THRESHOLD;
use crate::constants::ML_DSA_44_PUBKEY_SIZE;
use crate::constants::ML_DSA_65_PUBKEY_SIZE;
use crate::errors::QuresisError;
use crate::oracle::SignatureOracle;

verus! {

/// One registered quantum identity: a classical signing key bound to a
/// post-quantum public key plus enforcement policy fields.
#[derive(Debug, Clone, PartialEq, Eq)]
pub struct QuantumIdentity {
    /// The classical public key that owns this identity; immutable.
    pub authority: [u8; 32],
    /// Storage-derivation bump seed, chosen by the storage collaborator.
    pub bump: u8,
    /// Anti-replay counter; increments (saturating) on rotation.
    pub sequence: u64,
    /// Slot of the last state-changing operation.
    pub last_active_slot: u64,
    /// Creation timestamp.
    pub created_at: i64,
    /// Emergency freeze flag; blocks verification and rotation.
    pub is_frozen: bool,
    /// Transfers at or above this amount require enforcement.
    pub threshold_amount: u64,
    /// Key version, starts at 1 and increments (saturating) on rotation.
    pub key_version: u16,
    /// ML-DSA public key, 1312 or 1952 bytes; replaced wholesale on
    /// rotation.
    pub pqc_public_key: Vec<u8>,
}

/// Mathematical view of an identity record.
pub struct IdentityModel {
    pub authority: Seq<u8>,
    pub bump: u8,
    pub sequence: u64,
    pub last_active_slot: u64,
    pub created_at: i64,
    pub is_frozen: bool,
    pub threshold_amount: u64,
    pub key_version: u16,
    pub pqc_public_key: Seq<u8>,
}

impl View for QuantumIdentity {
    type V = IdentityModel;

    open spec fn view(&self) -> IdentityModel {
        IdentityModel {
            authority: self.authority@,
            bump: self.bump,
            sequence: self.sequence,
            last_active_slot: self.last_active_slot,
            created_at: self.created_at,
            is_frozen: self.is_frozen,
            threshold_amount: self.threshold_amount,
            key_version: self.key_version,
            pqc_public_key: self.pqc_public_key@,
        }
    }
}

/// The allowed public key sizes: ML-DSA-44 or ML-DSA-65.
pub open spec fn valid_key_len(n: nat) -> bool {
    n == ML_DSA_44_PUBKEY_SIZE as nat || n == ML_DSA_65_PUBKEY_SIZE as nat
}

/// The allowed threshold range.
pub open spec fn valid_threshold(t: u64) -> bool {
    MIN_THRESHOLD <= t && t <= MAX_THRESHOLD
}

/// The threshold a registration resolves to: the explicit one, or the
/// default when none is given.
pub open spec fn resolved_threshold(threshold_amount: Option<u64>) -> u64 {
    match threshold_amount {
        Some(t) => t,
        None => DEFAULT_THRESHOLD,
    }
}

/// Well-formedness of an identity record; established by registration and
/// preserved by every operation.
pub open spec fn identity_wf(v: IdentityModel) -> bool {
    &&& v.authority.len() == 32
    &&& valid_key_len(v.pqc_public_key.len())
    &&& valid_threshold(v.threshold_amount)
    &&& v.key_version >= 1
}

/// Increment that saturates at the largest `u16` instead of wrapping.
pub open spec fn saturating_inc_u16(x: u16) -> u16 {
    if x == u16::MAX {
        u16::MAX
    } else {
        (x + 1) as u16
    }
}

/// Increment that saturates at the largest `u64` instead of wrapping.
pub open spec fn saturating_inc_u64(x: u64) -> u64 {
    if x == u64::MAX {
        u64::MAX
    } else {
        (x + 1) as u64
    }
}

/// The record a successful registration creates.
pub open spec fn registered_identity(
    authority: Seq<u8>,
    pqc_public_key: Seq<u8>,
    threshold: u64,
    bump: u8,
    slot: u64,
    unix_timestamp: i64,
) -> IdentityModel {
    IdentityModel {
        authority: authority,
        bump: bump,
        sequence: 0,
        last_active_slot: slot,
        created_at: unix_timestamp,
        is_frozen: false,
        threshold_amount: threshold,
        key_version: 1,
        pqc_public_key: pqc_public_key,
    }
}

/// The record a successful rotation leaves behind: the new key, both
/// counters advanced (saturating), the activity slot refreshed,
/// everything else untouched.
pub open spec fn rotated_identity(v: IdentityModel, new_key: Seq<u8>, slot: u64) -> IdentityModel {
    IdentityModel {
        pqc_public_key: new_key,
        key_version: saturating_inc_u16(v.key_version),
        sequence: saturating_inc_u64(v.sequence),
        last_active_slot: slot,
        ..v
    }
}

/// The record after a successful threshold update.
pub open spec fn with_threshold(v: IdentityModel, new_threshold: u64, slot: u64) -> IdentityModel {
    IdentityModel { threshold_amount: new_threshold, last_active_slot: slot, ..v }
}

/// The record after a freeze toggle.
pub open spec fn toggled_identity(v: IdentityModel, slot: u64) -> IdentityModel {
    IdentityModel { is_frozen: !v.is_frozen, last_active_slot: slot, ..v }
}

/// One attempted lifecycle mutation, with the data the runtime feeds it;
/// `sig_ok` stands for the oracle's verdict on a rotation's old-key
/// signature.
pub enum IdentityOp {
    Rotate { new_key: Seq<u8>, sig_ok: bool, slot: u64 },
    SetThreshold { new_threshold: u64, slot: u64 },
    ToggleFreeze { slot: u64 },
}

/// The record after one attempted operation: the transform when the
/// operation succeeds (exactly as the executable functions' contracts
/// state), the record untouched when it is refused.
pub open spec fn apply_identity_op(v: IdentityModel, op: IdentityOp) -> IdentityModel {
    match op {
        IdentityOp::Rotate { new_key, sig_ok, slot } => if valid_key_len(new_key.len())
            && !v.is_frozen && sig_ok {
            rotated_identity(v, new_key, slot)
        } else {
            v
        },
        IdentityOp::SetThreshold { new_threshold, slot } => if valid_threshold(new_threshold) {
            with_threshold(v, new_threshold, slot)
        } else {
            v
        },
        IdentityOp::ToggleFreeze { slot } => toggled_identity(v, slot),
    }
}

/// The record after a sequence of attempted operations, first one first.
pub open spec fn apply_identity_ops(v: IdentityModel, ops: Seq<IdentityOp>) -> IdentityModel
    decreases ops.len(),
{
    if ops.len() == 0 {
        v
    } else {
        apply_identity_ops(apply_identity_op(v, ops[0]), ops.subrange(1, ops.len() as int))
    }
}

/// Well-formedness is an invariant of the lifecycle: after any sequence of
/// operations on a registered identity the key size, the threshold bounds
/// and the key version floor still hold; the owner and the creation time
/// never change; and the rotation counters never decrease.
pub proof fn lemma_lifecycle_preserves_wf(v: IdentityModel, ops: Seq<IdentityOp>)
    requires
        identity_wf(v),
    ensures
        identity_wf(apply_identity_ops(v, ops)),
        apply_identity_ops(v, ops).authority == v.authority,
        apply_identity_ops(v, ops).created_at == v.created_at,
        apply_identity_ops(v, ops).key_version >= v.key_version,
        apply_identity_ops(v, ops).sequence >= v.sequence,
    decreases ops.len(),
{
    if ops.len() > 0 {
        lemma_lifecycle_preserves_wf(apply_identity_op(v, ops[0]), ops.subrange(1, ops.len() as int));
    }
}

/// A successful rotation below the counters' saturation points strictly
/// increments the key version and the sequence and installs the new key;
/// the owner, the freeze flag and the threshold stay.
pub proof fn lemma_rotation_advances(v: IdentityModel, new_key: Seq<u8>, slot: u64)
    requires
        v.key_version < u16::MAX,
        v.sequence < u64::MAX,
    ensures
        rotated_identity(v, new_key, slot).key_version > v.key_version,
        rotated_identity(v, new_key, slot).sequence > v.sequence,
        rotated_identity(v, new_key, slot).pqc_public_key == new_key,
        rotated_identity(v, new_key, slot).authority == v.authority,
        rotated_identity(v, new_key, slot).is_frozen == v.is_frozen,
        rotated_identity(v, new_key, slot).threshold_amount == v.threshold_amount,
{
}

/// The freeze toggle is its own inverse: two consecutive toggles return
/// the identity to its original frozen state, every field but the
/// activity slot unchanged.
pub proof fn lemma_toggle_freeze_involution(v: IdentityModel, slot1: u64, slot2: u64)
    ensures
        toggled_identity(toggled_identity(v, slot1), slot2) == (IdentityModel {
            last_active_slot: slot2,
            ..v
        }),
{
}

/// Notification of a successful registration.
#[derive(Debug, Clone, Copy, PartialEq, Eq)]
pub struct IdentityRegistered {
    pub authority: [u8; 32],
    pub key_size: u16,
    pub threshold: u64,
    pub slot: u64,
}

/// Notification of a successful key rotation.
#[derive(Debug, Clone, Copy, PartialEq, Eq)]
pub struct KeyRotated {
    pub authority: [u8; 32],
    pub old_version: u16,
    pub new_version: u16,
    pub new_key_size: u16,
    pub slot: u64,
}

/// Notification of a successful signature verification.
#[derive(Debug, Clone, Copy, PartialEq, Eq)]
pub struct SignatureVerified {
    pub authority: [u8; 32],
    pub message_hash: [u8; 32],
    pub slot: u64,
}

/// Notification of a successful threshold update.
#[derive(Debug, Clone, Copy, PartialEq, Eq)]
pub struct ThresholdUpdated {
    pub authority: [u8; 32],
    pub old_threshold: u64,
    pub new_threshold: u64,
}

/// Notification of a freeze toggle.
#[derive(Debug, Clone, Copy, PartialEq, Eq)]
pub struct FreezeToggled {
    pub authority: [u8; 32],
    pub is_frozen: bool,
    pub slot: u64,
}

/// Registers a new quantum identity for `authority`.
///
/// Fails with `InvalidKeyLength` unless the key is 1312 or 1952 bytes, and
/// with `InvalidThreshold` unless the resolved threshold (the explicit one,
/// or the default) lies within bounds. On success the record starts at
/// `key_version` 1, `sequence` 0 and unfrozen. Uniqueness of one record per
/// owner is the storage collaborator's constraint, not checked here.
pub fn register_identity(
    authority: [u8; 32],
    pqc_public_key: Vec<u8>,
    threshold_amount: Option<u64>,
    bump: u8,
    slot: u64,
    unix_timestamp: i64,
) -> (r: Result<(QuantumIdentity, IdentityRegistered), QuresisError>)
    ensures
        r is Ok <==> valid_key_len(pqc_public_key@.len()) && valid_threshold(
            resolved_threshold(threshold_amount),
        ),
        !valid_key_len(pqc_public_key@.len()) ==> r == Err::<
            (QuantumIdentity, IdentityRegistered),
            QuresisError,
        >(QuresisError::InvalidKeyLength),
        valid_key_len(pqc_public_key@.len()) && !valid_threshold(
            resolved_threshold(threshold_amount),
        ) ==> r == Err::<(QuantumIdentity, IdentityRegistered), QuresisError>(
            QuresisError::InvalidThreshold,
        ),
        r matches Ok(ok) ==> ok.0@ == registered_identity(
            authority@,
            pqc_public_key@,
            resolved_threshold(threshold_amount),
            bump,
            slot,
            unix_timestamp,
        ),
        r matches Ok(ok) ==> identity_wf(ok.0@),
        r matches Ok(ok) ==> ok.1 == (IdentityRegistered {
            authority: authority,
            key_size: pqc_public_key@.len() as u16,
            threshold: resolved_threshold(threshold_amount),
            slot: slot,
        }),
{
    let key_len = pqc_public_key.len();
    if !(key_len == ML_DSA_44_PUBKEY_SIZE || key_len == ML_DSA_65_PUBKEY_SIZE) {
        return Err(QuresisError::InvalidKeyLength);
    }
    let threshold = match threshold_amount {
        Some(t) => t,
        None => DEFAULT_THRESHOLD,
    };
    if !(MIN_THRESHOLD <= threshold && threshold <= MAX_THRESHOLD) {
        return Err(QuresisError::InvalidThreshold);
    }
    let key_size = key_len as u16;
    let identity = QuantumIdentity {
        authority,
        bump,
        sequence: 0,
        last_active_slot: slot,
        created_at: unix_timestamp,
        is_frozen: false,
        threshold_amount: threshold,
        key_version: 1,
        pqc_public_key,
    };
    let event = IdentityRegistered { authority, key_size, threshold, slot };
    Ok((identity, event))
}

/// Rotates the identity's post-quantum key.
///
/// The rotation is authorized by a signature from the CURRENT (old) key:
/// this keeps a thief of the new key from hijacking the rotation, at the
/// cost of bricking the identity if the old key material is lost. Fails
/// with `InvalidKeyLength` on a bad new key size, `IdentityFrozen` on a
/// frozen record, `InvalidQuantumSignature` when the oracle rejects the
/// old-key signature; a failed rotation leaves the record unchanged.
pub fn rotate_key<O: SignatureOracle>(
    identity: &mut QuantumIdentity,
    oracle: &O,
    new_pqc_public_key: Vec<u8>,
    old_key_signature: Vec<u8>,
    signature_message: Vec<u8>,
    slot: u64,
) -> (r: Result<KeyRotated, QuresisError>)
    ensures
        r is Ok <==> valid_key_len(new_pqc_public_key@.len()) && !old(identity)@.is_frozen
            && oracle.spec_verify(
            old(identity)@.pqc_public_key,
            signature_message@,
            old_key_signature@,
        ),
        r is Err ==> final(identity)@ == old(identity)@,
        !valid_key_len(new_pqc_public_key@.len()) ==> r == Err::<KeyRotated, QuresisError>(
            QuresisError::InvalidKeyLength,
        ),
        valid_key_len(new_pqc_public_key@.len()) && old(identity)@.is_frozen ==> r == Err::<
            KeyRotated,
            QuresisError,
        >(QuresisError::IdentityFrozen),
        valid_key_len(new_pqc_public_key@.len()) && !old(identity)@.is_frozen
            && !oracle.spec_verify(
            old(identity)@.pqc_public_key,
            signature_message@,
            old_key_signature@,
        ) ==> r == Err::<KeyRotated, QuresisError>(QuresisError::InvalidQuantumSignature),
        r is Ok ==> final(identity)@ == rotated_identity(
            old(identity)@,
            new_pqc_public_key@,
            slot,
        ),
        r matches Ok(ev) ==> ev == (KeyRotated {
            authority: old(identity).authority,
            old_version: old(identity).key_version,
            new_version: saturating_inc_u16(old(identity).key_version),
            new_key_size: new_pqc_public_key@.len() as u16,
            slot: slot,
        }),
{
    let key_len = new_pqc_public_key.len();
    if !(key_len == ML_DSA_44_PUBKEY_SIZE || key_len == ML_DSA_65_PUBKEY_SIZE) {
        return Err(QuresisError::InvalidKeyLength);
    }
    if identity.is_frozen {
        return Err(QuresisError::IdentityFrozen);
    }
    let is_valid = oracle.verify(
        identity.pqc_public_key.as_slice(),
        signature_message.as_slice(),
        old_key_signature.as_slice(),
    );
    if !is_valid {
        return Err(QuresisError::InvalidQuantumSignature);
    }

    let old_version = identity.key_version;
    identity.pqc_public_key = new_pqc_public_key;
    identity.key_version = if old_version == u16::MAX {
        u16::MAX
    } else {
        old_version + 1
    };
    identity.last_active_slot = slot;
    identity.sequence = if identity.sequence == u64::MAX {
        u64::MAX
    } else {
        identity.sequence + 1
    };

    Ok(
        KeyRotated {
            authority: identity.authority,
            old_version,
            new_version: identity.key_version,
            new_key_size: identity.pqc_public_key.len() as u16,
            slot,
        },
    )
}

/// Verifies a quantum signature against the identity's current key.
///
/// A read operation, callable by any party (the transfer pipeline, or an
/// external relayer): no caller authentication is required and the record
/// is not touched. Fails with `IdentityFrozen` on a frozen record — a
/// frozen identity verifies nothing — and with `InvalidQuantumSignature`
/// when the oracle rejects the triple. On success the returned
/// notification carries the message's digest.
pub fn verify_signature<O: SignatureOracle>(
    identity: &QuantumIdentity,
    oracle: &O,
    message: &[u8],
    signature: &[u8],
    slot: u64,
) -> (r: Result<SignatureVerified, QuresisError>)
    ensures
        r is Ok <==> !identity@.is_frozen && oracle.spec_verify(
            identity@.pqc_public_key,
            message@,
            signature@,
        ),
        identity@.is_frozen ==> r == Err::<SignatureVerified, QuresisError>(
            QuresisError::IdentityFrozen,
        ),
        !identity@.is_frozen && !oracle.spec_verify(
            identity@.pqc_public_key,
            message@,
            signature@,
        ) ==> r == Err::<SignatureVerified, QuresisError>(QuresisError::InvalidQuantumSignature),
        r matches Ok(ev) ==> ev == (SignatureVerified {
            authority: identity.authority,
            message_hash: ev.message_hash,
            slot: slot,
        }) && ev.message_hash@ == crate::digest::spec_message_hash(message@),
{
    if identity.is_frozen {
        return Err(QuresisError::IdentityFrozen);
    }
    let is_valid = oracle.verify(identity.pqc_public_key.as_slice(), message, signature);
    if !is_valid {
        return Err(QuresisError::InvalidQuantumSignature);
    }
    let message_hash = crate::digest::hash_message(message);
    Ok(SignatureVerified { authority: identity.authority, message_hash, slot })
}

/// Updates the enforcement threshold.
///
/// Fails with `InvalidThreshold` outside bounds and then changes nothing;
/// on success only the threshold and the activity slot change.
pub fn update_threshold(identity: &mut QuantumIdentity, new_threshold: u64, slot: u64) -> (r:
    Result<ThresholdUpdated, QuresisError>)
    ensures
        r is Ok <==> valid_threshold(new_threshold),
        !valid_threshold(new_threshold) ==> r == Err::<ThresholdUpdated, QuresisError>(
            QuresisError::InvalidThreshold,
        ) && final(identity)@ == old(identity)@,
        r is Ok ==> final(identity)@ == with_threshold(old(identity)@, new_threshold, slot),
        r matches Ok(ev) ==> ev == (ThresholdUpdated {
            authority: old(identity).authority,
            old_threshold: old(identity).threshold_amount,
            new_threshold: new_threshold,
        }),
{
    if !(MIN_THRESHOLD <= new_threshold && new_threshold <= MAX_THRESHOLD) {
        return Err(QuresisError::InvalidThreshold);
    }
    let old_threshold = identity.threshold_amount;
    identity.threshold_amount = new_threshold;
    identity.last_active_slot = slot;
    Ok(ThresholdUpdated { authority: identity.authority, old_threshold, new_threshold })
}

/// Flips the emergency freeze flag. No precondition: callable while
/// already frozen; the toggle is its own inverse on the frozen state.
pub fn toggle_freeze(identity: &mut QuantumIdentity, slot: u64) -> (ev: FreezeToggled)
    ensures
        final(identity)@ == toggled_identity(old(identity)@, slot),
        ev == (FreezeToggled {
            authority: old(identity).authority,
            is_frozen: !old(identity).is_frozen,
            slot: slot,
        }),
{
    identity.is_frozen = !identity.is_frozen;
    identity.last_active_slot = slot;
    FreezeToggled { authority: identity.authority, is_frozen: identity.is_frozen, slot }
}

} // verus!
