//! The per-asset hook policy record and the transfer-check decision
//! procedure: on every transfer attempt the hook reads the sender's stored
//! identity record raw, compares the amount with the registered threshold
//! and answers ALLOW (`Ok`) or BLOCK (`Err`) under the asset's enforcement
//! mode, while keeping saturating statistics counters.
use vstd::prelude::*;

use crate::errors::QuresisHookError;
use crate::identity::saturating_inc_u64;
use crate::record::record_frozen;
use crate::record::record_frozen_flag;
use crate::record::record_threshold;
use crate::record::record_threshold_amount;
use crate::record::MIN_IDENTITY_RECORD_SIZE;

verus! {

/// What a high-value detection leads to.
#[derive(Debug, Clone, Copy, PartialEq, Eq)]
pub enum EnforcementMode {
    /// The hook is disabled: every transfer is allowed.
    Disabled,
    /// High-value transfers are detected and recorded but allowed.
    SoftEnforce,
    /// High-value transfers without post-quantum authorization are blocked.
    HardEnforce,
}

/// What the transfer check does with an identity record too short to hold
/// the fixed fields.
#[derive(Debug, Clone, Copy, PartialEq, Eq)]
pub enum MalformedRecordPolicy {
    /// Treat the record as absent and allow the transfer (the default:
    /// availability over strictness).
    Allow,
    /// Reject the transfer with `InvalidIdentityData`.
    Reject,
}

/// Per-asset hook policy record.
#[derive(Debug, Clone, Copy, PartialEq, Eq)]
pub struct HookConfig {
    /// The guarded asset; immutable, the record's unique key.
    pub mint: [u8; 32],
    /// The principal permitted to change the enforcement mode.
    pub authority: [u8; 32],
    /// The current enforcement mode.
    pub enforcement_mode: EnforcementMode,
    /// Transfers this hook has checked; never decreases, saturates.
    pub total_transfers_checked: u64,
    /// High-value transfers this hook has detected; never decreases,
    /// saturates.
    pub high_value_transfers_detected: u64,
    /// Storage-derivation bump seed.
    pub bump: u8,
}

/// Mathematical view of a hook policy record.
pub struct HookConfigModel {
    pub mint: Seq<u8>,
    pub authority: Seq<u8>,
    pub enforcement_mode: EnforcementMode,
    pub total_transfers_checked: u64,
    pub high_value_transfers_detected: u64,
    pub bump: u8,
}

impl View for HookConfig {
    type V = HookConfigModel;

    open spec fn view(&self) -> HookConfigModel {
        HookConfigModel {
            mint: self.mint@,
            authority: self.authority@,
            enforcement_mode: self.enforcement_mode,
            total_transfers_checked: self.total_transfers_checked,
            high_value_transfers_detected: self.high_value_transfers_detected,
            bump: self.bump,
        }
    }
}

/// Notification of a detected high-value transfer.
#[derive(Debug, Clone, Copy, PartialEq, Eq)]
pub struct HighValueTransferDetected {
    pub mint: [u8; 32],
    pub sender: [u8; 32],
    pub amount: u64,
    pub threshold: u64,
    pub enforcement_mode: EnforcementMode,
}

/// Notification of an enforcement mode transition.
#[derive(Debug, Clone, Copy, PartialEq, Eq)]
pub struct EnforcementModeUpdated {
    pub mint: [u8; 32],
    pub old_mode: EnforcementMode,
    pub new_mode: EnforcementMode,
    pub updated_by: [u8; 32],
}

/// Whether a stored identity record is present: the storage collaborator
/// hands an empty byte string for an absent record.
pub open spec fn record_present(data: Seq<u8>) -> bool {
    data.len() > 0
}

/// Whether a present record is long enough to hold the fixed fields.
pub open spec fn record_wellformed(data: Seq<u8>) -> bool {
    data.len() >= MIN_IDENTITY_RECORD_SIZE
}

/// Whether a transfer check detects a high-value transfer: the sender's
/// record is present and well formed, not frozen, and the amount reaches
/// its threshold.
pub open spec fn high_value_detected(data: Seq<u8>, amount: u64) -> bool {
    &&& record_wellformed(data)
    &&& !record_frozen(data)
    &&& amount >= record_threshold(data)
}

/// The verdict of a transfer check: `Ok` means ALLOW, `Err` means BLOCK
/// with the specific error kind.
pub open spec fn check_verdict(
    mode: EnforcementMode,
    data: Seq<u8>,
    amount: u64,
    policy: MalformedRecordPolicy,
) -> Result<(), QuresisHookError> {
    if !record_present(data) {
        // Opt-in design: absence of an identity is no violation.
        Ok(())
    } else if !record_wellformed(data) {
        match policy {
            MalformedRecordPolicy::Allow => Ok(()),
            MalformedRecordPolicy::Reject => Err(QuresisHookError::InvalidIdentityData),
        }
    } else if record_frozen(data) {
        Err(QuresisHookError::IdentityFrozen)
    } else if amount >= record_threshold(data) {
        match mode {
            EnforcementMode::Disabled => Ok(()),
            EnforcementMode::SoftEnforce => Ok(()),
            EnforcementMode::HardEnforce => Err(QuresisHookError::QuantumSignatureRequired),
        }
    } else {
        Ok(())
    }
}

/// The hook record after one transfer check: the total counter always
/// advances (saturating), the detection counter advances exactly on a
/// high-value detection, nothing else moves.
pub open spec fn checked_hook(h: HookConfigModel, data: Seq<u8>, amount: u64) -> HookConfigModel {
    HookConfigModel {
        total_transfers_checked: saturating_inc_u64(h.total_transfers_checked),
        high_value_transfers_detected: if high_value_detected(data, amount) {
            saturating_inc_u64(h.high_value_transfers_detected)
        } else {
            h.high_value_transfers_detected
        },
        ..h
    }
}

/// The hook record after an authorized mode update.
pub open spec fn with_mode(h: HookConfigModel, new_mode: EnforcementMode) -> HookConfigModel {
    HookConfigModel { enforcement_mode: new_mode, ..h }
}

/// One attempted hook mutation, with the data the runtime feeds it;
/// `authorized` stands for whether the caller is the record's authority.
pub enum HookOp {
    Check { data: Seq<u8>, amount: u64 },
    SetMode { authorized: bool, new_mode: EnforcementMode },
}

/// The hook record after one attempted operation, exactly as the
/// executable functions' contracts state it.
pub open spec fn apply_hook_op(h: HookConfigModel, op: HookOp) -> HookConfigModel {
    match op {
        HookOp::Check { data, amount } => checked_hook(h, data, amount),
        HookOp::SetMode { authorized, new_mode } => if authorized {
            with_mode(h, new_mode)
        } else {
            h
        },
    }
}

/// The hook record after a sequence of attempted operations, first one
/// first.
pub open spec fn apply_hook_ops(h: HookConfigModel, ops: Seq<HookOp>) -> HookConfigModel
    decreases ops.len(),
{
    if ops.len() == 0 {
        h
    } else {
        apply_hook_ops(apply_hook_op(h, ops[0]), ops.subrange(1, ops.len() as int))
    }
}

/// The statistics counters never decrease across any sequence of hook
/// operations, and once at the representable maximum they stay there
/// (saturation, no wrap); the asset and the authority never change.
pub proof fn lemma_counters_never_decrease(h: HookConfigModel, ops: Seq<HookOp>)
    ensures
        apply_hook_ops(h, ops).total_transfers_checked >= h.total_transfers_checked,
        apply_hook_ops(h, ops).high_value_transfers_detected >= h.high_value_transfers_detected,
        h.total_transfers_checked == u64::MAX ==> apply_hook_ops(h, ops).total_transfers_checked
            == u64::MAX,
        h.high_value_transfers_detected == u64::MAX ==> apply_hook_ops(
            h,
            ops,
        ).high_value_transfers_detected == u64::MAX,
        apply_hook_ops(h, ops).mint == h.mint,
        apply_hook_ops(h, ops).authority == h.authority,
    decreases ops.len(),
{
    if ops.len() > 0 {
        lemma_counters_never_decrease(apply_hook_op(h, ops[0]), ops.subrange(1, ops.len() as int));
    }
}

/// What the transfer check decides about a sender whose stored record
/// serializes a given identity: the raw windows agree with the identity's
/// fields, so the verdict is exactly the enforcement rule on its freeze
/// flag and threshold, and a high value is detected exactly on an
/// unfrozen sender whose threshold the amount reaches.
pub proof fn lemma_check_on_stored_identity(
    mode: EnforcementMode,
    disc: Seq<u8>,
    v: crate::identity::IdentityModel,
    amount: u64,
    policy: MalformedRecordPolicy,
)
    requires
        disc.len() == crate::record::IDENTITY_DISCRIMINATOR_SIZE,
        v.authority.len() == 32,
    ensures
        ({
            let data = crate::record::spec_identity_record(disc, v);
            &&& check_verdict(mode, data, amount, policy) == (if v.is_frozen {
                Err::<(), QuresisHookError>(QuresisHookError::IdentityFrozen)
            } else if amount >= v.threshold_amount {
                match mode {
                    EnforcementMode::Disabled => Ok::<(), QuresisHookError>(()),
                    EnforcementMode::SoftEnforce => Ok::<(), QuresisHookError>(()),
                    EnforcementMode::HardEnforce => Err::<(), QuresisHookError>(
                        QuresisHookError::QuantumSignatureRequired,
                    ),
                }
            } else {
                Ok::<(), QuresisHookError>(())
            })
            &&& high_value_detected(data, amount) == (!v.is_frozen && amount
                >= v.threshold_amount)
        }),
{
    crate::record::lemma_record_reflects_identity(disc, v);
}

/// Creates the hook configuration for an asset, with both statistics
/// counters at zero.
pub fn initialize_hook(
    mint: [u8; 32],
    authority: [u8; 32],
    enforcement_mode: EnforcementMode,
    bump: u8,
) -> (h: HookConfig)
    ensures
        h == (HookConfig {
            mint: mint,
            authority: authority,
            enforcement_mode: enforcement_mode,
            total_transfers_checked: 0,
            high_value_transfers_detected: 0,
            bump: bump,
        }),
{
    HookConfig {
        mint,
        authority,
        enforcement_mode,
        total_transfers_checked: 0,
        high_value_transfers_detected: 0,
        bump,
    }
}

/// The transfer check's first step: the hook policy record must exist for
/// the guarded asset. The storage collaborator hands `None` for an absent
/// record, and the check fails with `HookNotInitialized`.
pub fn require_hook_initialized(hook: Option<&HookConfig>) -> (r: Result<
    &HookConfig,
    QuresisHookError,
>)
    ensures
        hook matches Some(h) ==> r == Ok::<&HookConfig, QuresisHookError>(h),
        hook is None ==> r == Err::<&HookConfig, QuresisHookError>(
            QuresisHookError::HookNotInitialized,
        ),
{
    match hook {
        Some(h) => Ok(h),
        None => Err(QuresisHookError::HookNotInitialized),
    }
}

/// The transfer-check decision procedure, under an explicit policy for
/// malformed records.
///
/// `sender_identity_data` is the raw stored identity record of the sender;
/// empty when the sender registered no identity. The total counter always
/// advances, even when the rest of the check short-circuits. A sender
/// without a record, or (under `Allow`) with a record too short to hold
/// the fixed fields, passes. A frozen sender is blocked. At or above the
/// sender's threshold the detection counter advances and the enforcement
/// mode decides: `HardEnforce` blocks — no signature accompanies a bare
/// check, so a prior, separate verification call must have succeeded for
/// the transfer to proceed — and the other modes allow.
pub fn execute_transfer_check_with_policy(
    hook: &mut HookConfig,
    sender_identity_data: &[u8],
    amount: u64,
    policy: MalformedRecordPolicy,
) -> (r: Result<(), QuresisHookError>)
    ensures
        final(hook)@ == checked_hook(old(hook)@, sender_identity_data@, amount),
        r == check_verdict(old(hook)@.enforcement_mode, sender_identity_data@, amount, policy),
{
    hook.total_transfers_checked = if hook.total_transfers_checked == u64::MAX {
        u64::MAX
    } else {
        hook.total_transfers_checked + 1
    };

    if sender_identity_data.is_empty() {
        return Ok(());
    }

    if sender_identity_data.len() < MIN_IDENTITY_RECORD_SIZE {
        return match policy {
            MalformedRecordPolicy::Allow => Ok(()),
            MalformedRecordPolicy::Reject => Err(QuresisHookError::InvalidIdentityData),
        };
    }

    if record_frozen_flag(sender_identity_data) {
        return Err(QuresisHookError::IdentityFrozen);
    }

    let threshold = record_threshold_amount(sender_identity_data);
    if amount >= threshold {
        hook.high_value_transfers_detected = if hook.high_value_transfers_detected == u64::MAX {
            u64::MAX
        } else {
            hook.high_value_transfers_detected + 1
        };
        match hook.enforcement_mode {
            EnforcementMode::Disabled => Ok(()),
            EnforcementMode::SoftEnforce => Ok(()),
            EnforcementMode::HardEnforce => Err(QuresisHookError::QuantumSignatureRequired),
        }
    } else {
        Ok(())
    }
}

/// The transfer-check decision procedure with the default policy: a
/// malformed record is treated as absent and the transfer allowed.
pub fn execute_transfer_check(
    hook: &mut HookConfig,
    sender_identity_data: &[u8],
    amount: u64,
) -> (r: Result<(), QuresisHookError>)
    ensures
        final(hook)@ == checked_hook(old(hook)@, sender_identity_data@, amount),
        r == check_verdict(
            old(hook)@.enforcement_mode,
            sender_identity_data@,
            amount,
            MalformedRecordPolicy::Allow,
        ),
{
    execute_transfer_check_with_policy(
        hook,
        sender_identity_data,
        amount,
        MalformedRecordPolicy::Allow,
    )
}

/// Compares two 32-byte principal keys.
fn keys_equal(a: &[u8; 32], b: &[u8; 32]) -> (r: bool)
    ensures
        r == (a@ == b@),
{
    let mut i: usize = 0;
    while i < 32
        invariant
            i <= 32,
            forall|j: int| 0 <= j < i ==> a@[j] == b@[j],
        decreases 32 - i,
    {
        if *vstd::array::array_index_get(a, i) != *vstd::array::array_index_get(b, i) {
            return false;
        }
        i = i + 1;
    }
    proof {
        assert(a@ =~= b@);
    }
    true
}

/// Moves the hook to a new enforcement mode.
///
/// Authenticated against the record's authority: any mode is reachable
/// from any other, but only for the designated principal; any other caller
/// is refused with `Unauthorized` and changes nothing.
pub fn update_enforcement_mode(
    hook: &mut HookConfig,
    caller: &[u8; 32],
    new_mode: EnforcementMode,
) -> (r: Result<EnforcementModeUpdated, QuresisHookError>)
    ensures
        r is Ok <==> caller@ == old(hook)@.authority,
        caller@ != old(hook)@.authority ==> r == Err::<EnforcementModeUpdated, QuresisHookError>(
            QuresisHookError::Unauthorized,
        ) && final(hook)@ == old(hook)@,
        r is Ok ==> final(hook)@ == with_mode(old(hook)@, new_mode),
        r matches Ok(ev) ==> ev == (EnforcementModeUpdated {
            mint: old(hook).mint,
            old_mode: old(hook).enforcement_mode,
            new_mode: new_mode,
            updated_by: *caller,
        }),
{
    if !keys_equal(caller, &hook.authority) {
        return Err(QuresisHookError::Unauthorized);
    }
    let old_mode = hook.enforcement_mode;
    hook.enforcement_mode = new_mode;
    Ok(EnforcementModeUpdated { mint: hook.mint, old_mode, new_mode, updated_by: *caller })
}

/// A snapshot of the hook's configuration and statistics; a pure read.
pub fn get_statistics(hook: &HookConfig) -> (r: HookConfig)
    ensures
        r == *hook,
{
    *hook
}

} // verus!
