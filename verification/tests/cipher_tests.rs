use vlfd_rs::cipher::CipherState;

/// The raw fixture table 0x100..=0x11f, as the device would hand it out.
fn fixture_raw_table() -> Vec<u16> {
    (0x100u16..0x120).collect()
}

/// The fixture table after decoding: complement word 0, then XOR each word
/// with its already-decoded predecessor, left to right.
fn fixture_decoded_table() -> Vec<u16> {
    let mut table = fixture_raw_table();
    table[0] = !table[0];
    for i in 1..table.len() {
        table[i] ^= table[i - 1];
    }
    table
}

fn fixture_cipher() -> CipherState {
    let mut cipher = CipherState::new();
    cipher.load_raw_table(&fixture_raw_table());
    cipher.decode_table();
    cipher
}

#[test]
fn decode_table_matches_running_xor() {
    let cipher = fixture_cipher();
    assert_eq!(cipher.table_words(), fixture_decoded_table());
    assert_eq!(cipher.encode_index(), 0);
    assert_eq!(cipher.decode_index(), 0);
}

#[test]
fn encrypt_uses_second_half_keystream() {
    let mut cipher = fixture_cipher();
    let expected = fixture_decoded_table();
    let mut words = vec![0x0000u16, 0x1111, 0x2222, 0x3333, 0x4444];
    cipher.encrypt_words(&mut words);
    assert_eq!(words, vec![0xfeef, 0xeeef, 0xdcce, 0xcccc, 0xbaaf]);
    // Encrypting zeros exposes the keystream itself.
    let mut zeros = vec![0u16; 11];
    cipher.encrypt_words(&mut zeros);
    for (i, word) in zeros.iter().enumerate() {
        assert_eq!(*word, expected[16 + 5 + i]);
    }
}

#[test]
fn decrypt_uses_first_half_keystream() {
    let mut cipher = fixture_cipher();
    let mut words = vec![0x0000u16, 0x1111, 0x2222, 0x3333, 0x4444];
    cipher.decrypt_words(&mut words);
    assert_eq!(words, vec![0xfeff, 0xeeef, 0xdcde, 0xcccc, 0xbabf]);
}

#[test]
fn decrypt_of_encrypt_is_not_identity() {
    let mut cipher = fixture_cipher();
    let plain = vec![0x0000u16, 0x1111, 0x2222, 0x3333];
    let mut words = plain.clone();
    cipher.encrypt_words(&mut words);
    let mut fresh = fixture_cipher();
    fresh.decrypt_words(&mut words);
    // The halves differ, so the composition XORs both keystreams in.
    assert_ne!(words, plain);
    let table = fixture_decoded_table();
    for (i, word) in words.iter().enumerate() {
        assert_eq!(*word, plain[i] ^ table[16 + (i % 16)] ^ table[i % 16]);
    }
}

#[test]
fn encode_cursor_wraps_after_seventeen_words() {
    let mut cipher = fixture_cipher();
    let mut words = vec![0u16; 17];
    cipher.encrypt_words(&mut words);
    assert_eq!(cipher.encode_index(), 1);
    assert_eq!(cipher.decode_index(), 0);
}

#[test]
fn zero_length_input_leaves_cursors_unchanged() {
    let mut cipher = fixture_cipher();
    let mut seven = vec![0u16; 7];
    cipher.encrypt_words(&mut seven);
    let mut three = vec![0u16; 3];
    cipher.decrypt_words(&mut three);
    let mut empty: Vec<u16> = Vec::new();
    cipher.encrypt_words(&mut empty);
    cipher.decrypt_words(&mut empty);
    assert!(empty.is_empty());
    assert_eq!(cipher.encode_index(), 7);
    assert_eq!(cipher.decode_index(), 3);
}

#[test]
fn keystream_is_continuous_across_calls() {
    let mut split = fixture_cipher();
    let mut first = vec![0u16; 6];
    let mut second = vec![0u16; 10];
    split.encrypt_words(&mut first);
    split.encrypt_words(&mut second);
    let mut joined = fixture_cipher();
    let mut all = vec![0u16; 16];
    joined.encrypt_words(&mut all);
    first.extend_from_slice(&second);
    assert_eq!(first, all);
}
