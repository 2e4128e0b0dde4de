use quresis::errors::QuresisHookError;
use quresis::hook::{
    execute_transfer_check, execute_transfer_check_with_policy, get_statistics, initialize_hook,
    require_hook_initialized, update_enforcement_mode, EnforcementMode, HookConfig,
    MalformedRecordPolicy,
};
use quresis::identity::QuantumIdentity;
use quresis::record::encode_identity_record;

const DISCRIMINATOR: [u8; 8] = [11, 22, 33, 44, 55, 66, 77, 88];

fn sender_identity(threshold: u64, frozen: bool) -> QuantumIdentity {
    QuantumIdentity {
        authority: [5u8; 32],
        bump: 253,
        sequence: 4,
        last_active_slot: 900,
        created_at: 1_700_000_000,
        is_frozen: frozen,
        threshold_amount: threshold,
        key_version: 3,
        pqc_public_key: vec![7u8; 1312],
    }
}

fn sender_record(threshold: u64, frozen: bool) -> Vec<u8> {
    encode_identity_record(&DISCRIMINATOR, &sender_identity(threshold, frozen))
}

fn hard_hook() -> HookConfig {
    initialize_hook([9u8; 32], [2u8; 32], EnforcementMode::HardEnforce, 251)
}

#[test]
fn initialize_hook_starts_with_zero_counters() {
    let hook = hard_hook();
    assert_eq!(hook.mint, [9u8; 32]);
    assert_eq!(hook.authority, [2u8; 32]);
    assert_eq!(hook.enforcement_mode, EnforcementMode::HardEnforce);
    assert_eq!(hook.total_transfers_checked, 0);
    assert_eq!(hook.high_value_transfers_detected, 0);
    assert_eq!(hook.bump, 251);
}

#[test]
fn hard_enforce_blocks_high_value_transfer() {
    let mut hook = hard_hook();
    let record = sender_record(100, false);
    let r = execute_transfer_check(&mut hook, &record, 150);
    assert_eq!(r.unwrap_err(), QuresisHookError::QuantumSignatureRequired);
    assert_eq!(hook.total_transfers_checked, 1);
    assert_eq!(hook.high_value_transfers_detected, 1);
}

#[test]
fn below_threshold_is_allowed_and_not_detected() {
    let mut hook = hard_hook();
    let record = sender_record(100, false);
    let r = execute_transfer_check(&mut hook, &record, 50);
    assert!(r.is_ok());
    assert_eq!(hook.total_transfers_checked, 1);
    assert_eq!(hook.high_value_transfers_detected, 0);
}

#[test]
fn amount_equal_to_threshold_counts_as_high_value() {
    let mut hook = hard_hook();
    let record = sender_record(100, false);
    let r = execute_transfer_check(&mut hook, &record, 100);
    assert_eq!(r.unwrap_err(), QuresisHookError::QuantumSignatureRequired);
    assert_eq!(hook.high_value_transfers_detected, 1);
}

#[test]
fn absent_identity_allows_any_amount_in_any_mode() {
    for mode in [
        EnforcementMode::Disabled,
        EnforcementMode::SoftEnforce,
        EnforcementMode::HardEnforce,
    ] {
        let mut hook = initialize_hook([9u8; 32], [2u8; 32], mode, 251);
        for amount in [0, 1, u64::MAX] {
            let r = execute_transfer_check(&mut hook, &[], amount);
            assert!(r.is_ok());
        }
        assert_eq!(hook.total_transfers_checked, 3);
        assert_eq!(hook.high_value_transfers_detected, 0);
    }
}

#[test]
fn soft_enforce_allows_but_detects_high_value() {
    let mut hook = initialize_hook([9u8; 32], [2u8; 32], EnforcementMode::SoftEnforce, 251);
    let record = sender_record(100, false);
    let r = execute_transfer_check(&mut hook, &record, 150);
    assert!(r.is_ok());
    assert_eq!(hook.total_transfers_checked, 1);
    // The detection is recorded even though the transfer passes.
    assert_eq!(hook.high_value_transfers_detected, 1);
}

#[test]
fn disabled_mode_allows_but_still_counts_detections() {
    let mut hook = initialize_hook([9u8; 32], [2u8; 32], EnforcementMode::Disabled, 251);
    let record = sender_record(100, false);
    let r = execute_transfer_check(&mut hook, &record, 150);
    assert!(r.is_ok());
    assert_eq!(hook.high_value_transfers_detected, 1);
}

#[test]
fn frozen_sender_is_blocked_before_any_threshold_logic() {
    let mut hook = hard_hook();
    let record = sender_record(100, true);
    for amount in [0, 50, 150] {
        let r = execute_transfer_check(&mut hook, &record, amount);
        assert_eq!(r.unwrap_err(), QuresisHookError::IdentityFrozen);
    }
    assert_eq!(hook.total_transfers_checked, 3);
    assert_eq!(hook.high_value_transfers_detected, 0);
}

#[test]
fn malformed_record_is_allowed_by_default() {
    let mut hook = hard_hook();
    let r = execute_transfer_check(&mut hook, &[1, 2, 3], u64::MAX);
    assert!(r.is_ok());
    assert_eq!(hook.total_transfers_checked, 1);
    assert_eq!(hook.high_value_transfers_detected, 0);
}

#[test]
fn malformed_record_is_rejected_under_strict_policy() {
    let mut hook = hard_hook();
    let r = execute_transfer_check_with_policy(
        &mut hook,
        &[1, 2, 3],
        u64::MAX,
        MalformedRecordPolicy::Reject,
    );
    assert_eq!(r.unwrap_err(), QuresisHookError::InvalidIdentityData);
    assert_eq!(hook.total_transfers_checked, 1);
}

#[test]
fn counters_saturate_at_maximum() {
    let mut hook = hard_hook();
    hook.total_transfers_checked = u64::MAX;
    hook.high_value_transfers_detected = u64::MAX;
    let record = sender_record(100, false);
    let r = execute_transfer_check(&mut hook, &record, 150);
    assert!(r.is_err());
    assert_eq!(hook.total_transfers_checked, u64::MAX);
    assert_eq!(hook.high_value_transfers_detected, u64::MAX);
}

#[test]
fn counters_never_decrease_across_a_sequence_of_operations() {
    let mut hook = initialize_hook([9u8; 32], [2u8; 32], EnforcementMode::SoftEnforce, 251);
    let record = sender_record(100, false);
    let frozen_record = sender_record(100, true);
    let mut last_total = 0u64;
    let mut last_high = 0u64;
    let checks: [(&[u8], u64); 6] = [
        (&record, 150),
        (&[], 7),
        (&record, 50),
        (&frozen_record, 150),
        (&[1, 2], 3),
        (&record, u64::MAX),
    ];
    for (data, amount) in checks {
        let _ = execute_transfer_check(&mut hook, data, amount);
        assert!(hook.total_transfers_checked >= last_total);
        assert!(hook.high_value_transfers_detected >= last_high);
        last_total = hook.total_transfers_checked;
        last_high = hook.high_value_transfers_detected;
        let _ = update_enforcement_mode(&mut hook, &[2u8; 32], EnforcementMode::HardEnforce);
        assert!(hook.total_transfers_checked >= last_total);
        assert!(hook.high_value_transfers_detected >= last_high);
    }
    assert_eq!(hook.total_transfers_checked, 6);
    assert_eq!(hook.high_value_transfers_detected, 2);
}

#[test]
fn update_enforcement_mode_requires_the_authority() {
    let mut hook = hard_hook();
    let before = hook;
    let r = update_enforcement_mode(&mut hook, &[4u8; 32], EnforcementMode::Disabled);
    assert_eq!(r.unwrap_err(), QuresisHookError::Unauthorized);
    assert_eq!(hook, before);
}

#[test]
fn update_enforcement_mode_moves_between_any_two_modes() {
    let mut hook = hard_hook();
    let event = update_enforcement_mode(&mut hook, &[2u8; 32], EnforcementMode::Disabled).unwrap();
    assert_eq!(hook.enforcement_mode, EnforcementMode::Disabled);
    assert_eq!(event.old_mode, EnforcementMode::HardEnforce);
    assert_eq!(event.new_mode, EnforcementMode::Disabled);
    assert_eq!(event.mint, [9u8; 32]);
    assert_eq!(event.updated_by, [2u8; 32]);
    let event = update_enforcement_mode(&mut hook, &[2u8; 32], EnforcementMode::SoftEnforce).unwrap();
    assert_eq!(hook.enforcement_mode, EnforcementMode::SoftEnforce);
    assert_eq!(event.old_mode, EnforcementMode::Disabled);
}

#[test]
fn absent_hook_record_is_not_initialized() {
    let hook = hard_hook();
    assert_eq!(require_hook_initialized(Some(&hook)), Ok(&hook));
    assert_eq!(
        require_hook_initialized(None),
        Err(QuresisHookError::HookNotInitialized)
    );
}

#[test]
fn get_statistics_is_an_exact_snapshot() {
    let mut hook = hard_hook();
    let record = sender_record(100, false);
    let _ = execute_transfer_check(&mut hook, &record, 150);
    let snapshot = get_statistics(&hook);
    assert_eq!(snapshot, hook);
    assert_eq!(snapshot.total_transfers_checked, 1);
    assert_eq!(snapshot.high_value_transfers_detected, 1);
}
