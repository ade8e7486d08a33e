use ddns_monitor::secret::{
    decrypt_password, encrypt_password, machine_key, DecryptionError,
};

#[test]
fn test_encrypt_decrypt_password() {
    let key = machine_key(&Some("00:11:22:33:44:55".to_string()), "fallback");
    let encrypted = encrypt_password(&key, "test");
    let decrypted = decrypt_password(&key, &encrypted).expect("can't decrypt test");
    assert_eq!(decrypted, "test", "decrypted password doesn't match test");
}

#[test]
fn encryption_gives_the_known_text() {
    assert_eq!(
        encrypt_password("magickey", "http://magiclen.org"),
        "DS/2U8royDnJDiNY2ps3f6ZoTbpZo8ZtUGYLGEjwLDQ="
    );
    assert_eq!(
        decrypt_password("magickey", "DS/2U8royDnJDiNY2ps3f6ZoTbpZo8ZtUGYLGEjwLDQ="),
        Ok("http://magiclen.org".to_string())
    );
}

#[test]
fn encryption_is_not_the_identity() {
    assert_ne!(encrypt_password("key", "secret"), "secret");
    assert_ne!(encrypt_password("key", "secret"), "key");
    assert_ne!(encrypt_password("key", "secret"), encrypt_password("other", "secret"));
    assert_eq!(encrypt_password("key", "secret"), encrypt_password("key", "secret"));
}

#[test]
fn what_is_no_encryption_is_not_decrypted() {
    assert_eq!(decrypt_password("key", "not base64!"), Err(DecryptionError {}));
    assert_eq!(decrypt_password("key", "AAAA"), Err(DecryptionError {}));
    let encrypted = encrypt_password("key", "secret");
    assert_ne!(decrypt_password("other", &encrypted), Ok("secret".to_string()));
    assert_eq!(DecryptionError {}.message(), "Password decryption failed");
}

#[test]
fn the_empty_password_comes_back() {
    let encrypted = encrypt_password("key", "");
    assert_ne!(encrypted, "");
    assert_eq!(decrypt_password("key", &encrypted), Ok(String::new()));
}

#[test]
fn the_key_is_the_hardware_address_or_the_fallback() {
    assert_eq!(machine_key(&Some("aa:bb".to_string()), "fallback"), "aa:bb");
    assert_eq!(machine_key(&None, "fallback"), "fallback");
}
