//! Message digests for event identification. A message is hashed to 32
//! bytes through the deterministic program-address derivation (SHA-256
//! based) under the engine's own program id.
use vstd::prelude::*;

verus! {

/// The 32-byte address that the program-address derivation yields for the
/// two seed slices `seed` and `message` under `program_id`, or `None` when
/// no bump seed yields an off-curve address. A deterministic function of
/// its three arguments alone.
pub uninterp spec fn program_address_of(seed: Seq<u8>, message: Seq<u8>, program_id: Seq<u8>) -> Option<Seq<u8>>;

/// The seed slice under which message digests are derived: the bytes of
/// "msg_hash".
pub open spec fn spec_msg_hash_seed() -> Seq<u8> {
    seq![109u8, 115u8, 103u8, 95u8, 104u8, 97u8, 115u8, 104u8]
}

/// The engine's program id: the namespace of the digest derivation.
pub open spec fn spec_program_id() -> Seq<u8> {
    seq![
        95u8, 203u8, 78u8, 108u8, 206u8, 175u8, 54u8, 155u8, 22u8, 143u8, 45u8, 228u8, 206u8,
        62u8, 244u8, 240u8, 239u8, 62u8, 70u8, 239u8, 77u8, 230u8, 15u8, 96u8, 171u8, 183u8,
        110u8, 66u8, 249u8, 198u8, 241u8, 129u8,
    ]
}

/// The digest of a message: the derived address, or the zero digest in the
/// improbable case that the derivation finds none.
pub open spec fn spec_message_hash(message: Seq<u8>) -> Seq<u8> {
    match program_address_of(spec_msg_hash_seed(), message, spec_program_id()) {
        Some(h) => h,
        None => Seq::new(32, |i: int| 0u8),
    }
}

/// Relies on solana `Pubkey::try_find_program_address` (the `Pubkey` that
/// `anchor_lang` re-exports): a deterministic SHA-256-based derivation
/// from the seed slices and the program id, yielding a 32-byte address;
/// `None` only in the statistically improbable case that every bump seed
/// lands on the ed25519 curve.
#[verifier::external_body]
fn derive_program_address(seed: &[u8], message: &[u8], program_id: &[u8; 32]) -> (r: Option<
    [u8; 32],
>)
    ensures
        r matches Some(h) ==> program_address_of(seed@, message@, program_id@) == Some(h@),
        r is None ==> program_address_of(seed@, message@, program_id@) is None,
{
    let pid = anchor_lang::prelude::Pubkey::new_from_array(*program_id);
    let seeds: &[&[u8]] = &[seed, message];
    anchor_lang::prelude::Pubkey::try_find_program_address(seeds, &pid).map(
        |found: (anchor_lang::prelude::Pubkey, u8)| found.0.to_bytes(),
    )
}

/// The seed slice of the digest derivation, as bytes.
fn msg_hash_seed() -> (r: Vec<u8>)
    ensures
        r@ == spec_msg_hash_seed(),
{
    let mut v: Vec<u8> = Vec::new();
    v.push(109);
    v.push(115);
    v.push(103);
    v.push(95);
    v.push(104);
    v.push(97);
    v.push(115);
    v.push(104);
    proof {
        assert(v@ =~= spec_msg_hash_seed());
    }
    v
}

/// The engine's program id, as bytes.
pub fn program_id() -> (r: [u8; 32])
    ensures
        r@ == spec_program_id(),
{
    let r: [u8; 32] = [
        95, 203, 78, 108, 206, 175, 54, 155, 22, 143, 45, 228, 206, 62, 244, 240, 239, 62, 70,
        239, 77, 230, 15, 96, 171, 183, 110, 66, 249, 198, 241, 129,
    ];
    proof {
        assert(r@ =~= spec_program_id());
    }
    r
}

/// Hashes a message to 32 bytes for event identification.
pub fn hash_message(message: &[u8]) -> (r: [u8; 32])
    ensures
        r@ == spec_message_hash(message@),
{
    let seed = msg_hash_seed();
    let pid = program_id();
    match derive_program_address(seed.as_slice(), message, &pid) {
        Some(h) => h,
        None => {
            let z: [u8; 32] = [0u8; 32];
            proof {
                assert(z@ =~= Seq::new(32, |i: int| 0u8));
            }
            z
        },
    }
}

} // verus!
