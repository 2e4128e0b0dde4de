use quresis::identity::QuantumIdentity;
use quresis::record::{
    encode_identity_record, record_frozen_flag, record_threshold_amount, FROZEN_FLAG_OFFSET,
    MIN_IDENTITY_RECORD_SIZE, THRESHOLD_WINDOW_END, THRESHOLD_WINDOW_START,
};

const DISCRIMINATOR: [u8; 8] = [0xde, 0xad, 0xbe, 0xef, 0x01, 0x02, 0x03, 0x04];

fn sample_identity() -> QuantumIdentity {
    QuantumIdentity {
        authority: [0xabu8; 32],
        bump: 200,
        sequence: 0x0102030405060708,
        last_active_slot: 0x1112131415161718,
        created_at: -2,
        is_frozen: true,
        threshold_amount: 0x2122232425262728,
        key_version: 0x3132,
        pqc_public_key: vec![0xcd; 1312],
    }
}

#[test]
fn encoded_record_has_the_documented_layout() {
    let identity = sample_identity();
    let record = encode_identity_record(&DISCRIMINATOR, &identity);

    assert_eq!(record.len(), MIN_IDENTITY_RECORD_SIZE + 4 + 1312);
    assert_eq!(&record[0..8], &DISCRIMINATOR);
    assert_eq!(&record[8..40], &[0xabu8; 32]);
    assert_eq!(record[40], 200);
    assert_eq!(&record[41..49], &0x0102030405060708u64.to_le_bytes());
    assert_eq!(&record[49..57], &0x1112131415161718u64.to_le_bytes());
    assert_eq!(&record[57..65], &(-2i64).to_le_bytes());
    assert_eq!(record[FROZEN_FLAG_OFFSET], 1);
    assert_eq!(
        &record[THRESHOLD_WINDOW_START..THRESHOLD_WINDOW_END],
        &0x2122232425262728u64.to_le_bytes()
    );
    assert_eq!(&record[74..76], &0x3132u16.to_le_bytes());
    assert_eq!(&record[76..80], &1312u32.to_le_bytes());
    assert_eq!(&record[80..], &vec![0xcdu8; 1312][..]);
}

#[test]
fn raw_windows_read_back_the_identity_fields() {
    let mut identity = sample_identity();
    let record = encode_identity_record(&DISCRIMINATOR, &identity);
    assert!(record_frozen_flag(&record));
    assert_eq!(record_threshold_amount(&record), 0x2122232425262728);

    identity.is_frozen = false;
    identity.threshold_amount = 100;
    let record = encode_identity_record(&DISCRIMINATOR, &identity);
    assert!(!record_frozen_flag(&record));
    assert_eq!(record_threshold_amount(&record), 100);
}

#[test]
fn minimum_record_size_counts_the_fixed_fields() {
    // discriminator + authority + bump + sequence + slot + timestamp +
    // freeze flag + threshold + key version
    assert_eq!(MIN_IDENTITY_RECORD_SIZE, 8 + 32 + 1 + 8 + 8 + 8 + 1 + 8 + 2);
}
