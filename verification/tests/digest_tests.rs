use quresis::digest::{hash_message, program_id};

#[test]
fn hash_message_is_deterministic() {
    assert_eq!(hash_message(b"hello world"), hash_message(b"hello world"));
    assert_eq!(hash_message(b""), hash_message(b""));
}

#[test]
fn hash_message_separates_messages() {
    assert_ne!(hash_message(b"hello world"), hash_message(b"hello worlds"));
    assert_ne!(hash_message(b""), hash_message(b"x"));
}

#[test]
fn hash_message_matches_the_program_address_derivation() {
    // The digest must be the real derivation under the engine's program
    // id, not anything built from the message bytes themselves.
    let pid = solana_pubkey::Pubkey::new_from_array(program_id());
    for message in [&b"hello world"[..], b"", b"another message"] {
        let (expected, _bump) =
            solana_pubkey::Pubkey::try_find_program_address(&[b"msg_hash", message], &pid)
                .expect("the derivation finds a bump seed");
        assert_eq!(hash_message(message), expected.to_bytes());
        assert_ne!(&hash_message(message)[..], message);
    }
}
