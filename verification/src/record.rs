//! The persisted byte layout of an identity record, as collaborators doing
//! raw inspection see it:
//!
//! ```text
//! discriminator(8) | authority(32) | bump(1) | sequence(8, u64 LE) |
//! last_active_slot(8, u64 LE) | created_at(8, i64 LE) | is_frozen(1) |
//! threshold_amount(8, u64 LE) | key_version(2, u16 LE) |
//! pqc_public_key_len(4, u32 LE) | pqc_public_key(var)
//! ```
//!
//! The transfer check reads the freeze flag straight from its fixed offset
//! and the threshold from its fixed little-endian window without decoding
//! the whole record, so this exact layout is part of the contract.
use vstd::prelude::*;

use crate::identity::IdentityModel;
use crate::identity::QuantumIdentity;

verus! {

/// Size of the record-kind discriminator that prefixes a stored record.
pub const IDENTITY_DISCRIMINATOR_SIZE: usize = 8;

/// The fixed-size fields of an identity record: every byte before the
/// variable-length public key's length prefix.
pub const MIN_IDENTITY_RECORD_SIZE: usize = 8 + 32 + 1 + 8 + 8 + 8 + 1 + 8 + 2;

/// Offset of the freeze flag within a stored identity record.
pub const FROZEN_FLAG_OFFSET: usize = 65;

/// Start of the threshold's little-endian window.
pub const THRESHOLD_WINDOW_START: usize = 66;

/// End (exclusive) of the threshold's little-endian window.
pub const THRESHOLD_WINDOW_END: usize = 74;

/// Whether a stored identity record marks its identity frozen.
pub open spec fn record_frozen(data: Seq<u8>) -> bool
    recommends
        data.len() >= MIN_IDENTITY_RECORD_SIZE,
{
    data[FROZEN_FLAG_OFFSET as int] == 1
}

/// The threshold a stored identity record carries.
pub open spec fn record_threshold(data: Seq<u8>) -> u64
    recommends
        data.len() >= MIN_IDENTITY_RECORD_SIZE,
{
    vstd::bytes::spec_u64_from_le_bytes(
        data.subrange(THRESHOLD_WINDOW_START as int, THRESHOLD_WINDOW_END as int),
    )
}

/// Reads the freeze flag from a stored identity record without decoding
/// the rest.
pub fn record_frozen_flag(data: &[u8]) -> (r: bool)
    requires
        data@.len() >= MIN_IDENTITY_RECORD_SIZE,
    ensures
        r == record_frozen(data@),
{
    *vstd::slice::slice_index_get(data, FROZEN_FLAG_OFFSET) == 1
}

/// Reads the threshold from its fixed little-endian window of a stored
/// identity record.
pub fn record_threshold_amount(data: &[u8]) -> (r: u64)
    requires
        data@.len() >= MIN_IDENTITY_RECORD_SIZE,
    ensures
        r == record_threshold(data@),
{
    let window = vstd::slice::slice_subrange(data, THRESHOLD_WINDOW_START, THRESHOLD_WINDOW_END);
    vstd::bytes::u64_from_le_bytes(window)
}

/// The full byte layout of an identity record under a record-kind
/// discriminator.
pub open spec fn spec_identity_record(disc: Seq<u8>, v: IdentityModel) -> Seq<u8>
    recommends
        disc.len() == IDENTITY_DISCRIMINATOR_SIZE,
{
    disc + v.authority + seq![v.bump] + vstd::bytes::spec_u64_to_le_bytes(v.sequence)
        + vstd::bytes::spec_u64_to_le_bytes(v.last_active_slot)
        + vstd::bytes::spec_u64_to_le_bytes(v.created_at as u64) + seq![
        if v.is_frozen {
            1u8
        } else {
            0u8
        },
    ] + vstd::bytes::spec_u64_to_le_bytes(v.threshold_amount)
        + vstd::bytes::spec_u16_to_le_bytes(v.key_version) + vstd::bytes::spec_u32_to_le_bytes(
        v.pqc_public_key.len() as u32,
    ) + v.pqc_public_key
}

/// Appends a slice to a byte buffer.
fn push_bytes(dst: &mut Vec<u8>, src: &[u8])
    ensures
        final(dst)@ == old(dst)@ + src@,
{
    let mut i: usize = 0;
    while i < src.len()
        invariant
            i <= src@.len(),
            dst@ == old(dst)@ + src@.subrange(0, i as int),
        decreases src@.len() - i,
    {
        dst.push(*vstd::slice::slice_index_get(src, i));
        i = i + 1;
    }
}

/// Serializes an identity record into the persisted byte layout under the
/// given record-kind discriminator (the storage collaborator's tag).
pub fn encode_identity_record(discriminator: &[u8], identity: &QuantumIdentity) -> (r: Vec<u8>)
    requires
        discriminator@.len() == IDENTITY_DISCRIMINATOR_SIZE,
        identity@.pqc_public_key.len() <= u32::MAX,
    ensures
        r@ == spec_identity_record(discriminator@, identity@),
{
    let mut out: Vec<u8> = Vec::new();
    push_bytes(&mut out, discriminator);
    push_bytes(&mut out, identity.authority.as_slice());
    out.push(identity.bump);
    let sequence_bytes = vstd::bytes::u64_to_le_bytes(identity.sequence);
    push_bytes(&mut out, sequence_bytes.as_slice());
    let slot_bytes = vstd::bytes::u64_to_le_bytes(identity.last_active_slot);
    push_bytes(&mut out, slot_bytes.as_slice());
    let created_bytes = vstd::bytes::u64_to_le_bytes(identity.created_at as u64);
    push_bytes(&mut out, created_bytes.as_slice());
    out.push(if identity.is_frozen { 1 } else { 0 });
    let threshold_bytes = vstd::bytes::u64_to_le_bytes(identity.threshold_amount);
    push_bytes(&mut out, threshold_bytes.as_slice());
    let version_bytes = vstd::bytes::u16_to_le_bytes(identity.key_version);
    push_bytes(&mut out, version_bytes.as_slice());
    let len_bytes = vstd::bytes::u32_to_le_bytes(identity.pqc_public_key.len() as u32);
    push_bytes(&mut out, len_bytes.as_slice());
    push_bytes(&mut out, identity.pqc_public_key.as_slice());
    proof {
        assert(out@ =~= spec_identity_record(discriminator@, identity@));
    }
    out
}

/// The raw-inspection windows agree with the record's fields: in the
/// serialized layout the freeze flag stands at its fixed offset and the
/// threshold in its little-endian window, whatever the identity holds.
pub proof fn lemma_record_reflects_identity(disc: Seq<u8>, v: IdentityModel)
    requires
        disc.len() == IDENTITY_DISCRIMINATOR_SIZE,
        v.authority.len() == 32,
    ensures
        spec_identity_record(disc, v).len() == MIN_IDENTITY_RECORD_SIZE + 4
            + v.pqc_public_key.len(),
        record_frozen(spec_identity_record(disc, v)) == v.is_frozen,
        record_threshold(spec_identity_record(disc, v)) == v.threshold_amount,
{
    vstd::bytes::lemma_auto_spec_u64_to_from_le_bytes();
    vstd::bytes::lemma_auto_spec_u16_to_from_le_bytes();
    vstd::bytes::lemma_auto_spec_u32_to_from_le_bytes();
    let r = spec_identity_record(disc, v);
    assert(r.len() == MIN_IDENTITY_RECORD_SIZE + 4 + v.pqc_public_key.len());
    assert(r[FROZEN_FLAG_OFFSET as int] == (if v.is_frozen {
        1u8
    } else {
        0u8
    }));
    assert(r.subrange(THRESHOLD_WINDOW_START as int, THRESHOLD_WINDOW_END as int)
        =~= vstd::bytes::spec_u64_to_le_bytes(v.threshold_amount));
}

} // verus!
