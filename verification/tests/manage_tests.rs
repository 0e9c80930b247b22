//! The export cipher and the restore tally.

use antigravity_agent::manage::{
    decrypt_config_data, encrypt_config_data, xor_with_password, RestoreResult,
};

#[test]
fn encrypt_then_decrypt_gives_back_the_text() {
    let data = "{\"accounts\":[\"a@b\",\"c@d\"],\"note\":\"héllo\"}";
    let encrypted = encrypt_config_data(data, "s3cret").unwrap();
    assert_ne!(encrypted, data);
    let decrypted = decrypt_config_data(&encrypted, "s3cret").unwrap();
    assert_eq!(decrypted, data);
}

#[test]
fn the_cipher_and_encoding_match_known_values() {
    // "AB" under password "K": 0x41^0x4B = 0x0A, 0x42^0x4B = 0x09,
    // encoded as standard base64 with padding.
    let encrypted = encrypt_config_data("AB", "K").unwrap();
    assert_eq!(encrypted, "Cgk=");
}

#[test]
fn an_empty_password_is_rejected_both_ways() {
    assert_eq!(
        encrypt_config_data("data", "").unwrap_err(),
        "password must not be empty"
    );
    assert_eq!(
        decrypt_config_data("Cgk=", "").unwrap_err(),
        "password must not be empty"
    );
}

#[test]
fn invalid_encoded_text_is_a_named_error() {
    assert_eq!(
        decrypt_config_data("!!!not base64!!!", "pw").unwrap_err(),
        "invalid base64 data"
    );
}

#[test]
fn bytes_that_decrypt_to_invalid_text_are_a_named_error() {
    // "/w==" decodes to the single byte 0xff; 0xff ^ 'K' (0x4b) = 0xb4,
    // which is not valid UTF-8 on its own.
    assert_eq!(
        decrypt_config_data("/w==", "K").unwrap_err(),
        "decrypted data is not valid text"
    );
}

#[test]
fn a_wrong_password_usually_fails_the_text_check() {
    // Ciphertext of multi-byte text under one password, decoded under a
    // password whose keystream lands inside a multi-byte sequence.
    let encrypted = encrypt_config_data("héllo wörld", "key-one").unwrap();
    match decrypt_config_data(&encrypted, "other-k") {
        Ok(s) => assert_ne!(s, "héllo wörld"),
        Err(e) => assert_eq!(e, "decrypted data is not valid text"),
    }
}

#[test]
fn the_keystream_repeats_over_the_password() {
    let data = vec![0x10u8, 0x20, 0x30, 0x40, 0x50];
    let pw = vec![0x01u8, 0x02];
    let out = xor_with_password(&data, &pw);
    assert_eq!(out, vec![0x11u8, 0x22, 0x31, 0x42, 0x51]);
    let back = xor_with_password(&out, &pw);
    assert_eq!(back, data);
}

#[test]
fn the_restore_tally_counts_successes_and_failures() {
    let mut tally = RestoreResult::new();
    assert_eq!(tally.restored_count, 0);
    tally.record_success();
    tally.record_success();
    tally.record_failure("bad.json".to_string(), "unreadable".to_string());
    assert_eq!(tally.restored_count, 2);
    assert_eq!(tally.failed.len(), 1);
    assert_eq!(tally.failed[0].filename, "bad.json");
    assert_eq!(tally.failed[0].error, "unreadable");
}
