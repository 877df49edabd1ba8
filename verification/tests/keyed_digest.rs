use credential_hasher::hmac_password;

fn digest(password: &str, key: &[u8]) -> String {
    hmac_password(password, key).expect("every key is usable")
}

#[test]
fn digest_of_the_test_password() {
    assert_eq!(
        digest("test_password", b"my_key"),
        "8a8fa9343b8308d8712ff1c66b261ebd8f111da47017bacf30b3d4f8bd5aa3cf"
    );
}

#[test]
fn digest_of_a_known_sentence() {
    assert_eq!(
        digest("The quick brown fox jumps over the lazy dog", b"key"),
        "f7bc83f430538424b13298e6aa6fb143ef4d59a14946175997479dbc2d1a3cd8"
    );
    assert_eq!(
        digest("what do ya want for nothing?", b"Jefe"),
        "5bdcc146bf60754e6a042426089575c75a003f089d2739839dec58b964ec3843"
    );
}

#[test]
fn digest_under_empty_key() {
    assert_eq!(
        digest("", b""),
        "b613679a0814d9ec772f95d778c35fc5ff1697c493715653c6c712144292c5ad"
    );
}

#[test]
fn digest_under_key_longer_than_a_block() {
    let key = [0xaau8; 131];
    assert_eq!(
        digest("Test Using Larger Than Block-Size Key - Hash Key First", &key),
        "60e431591ee0b67f0d8a26aacbf5b77f8e0bc6213728c5140546040f0ee37f54"
    );
}

#[test]
fn digest_under_key_with_zero_bytes() {
    assert_eq!(
        digest("correct horse battery staple", b"\x00\x01\x02"),
        "77a5bfde96111087222f34d198f4381ff45d2c657e6ad14faf4c5eba36e8f110"
    );
}

#[test]
fn digest_takes_the_utf8_bytes() {
    assert_eq!(
        digest("p\u{e4}ssw\u{f6}rd \u{1f511}", b"my_key"),
        "1e2d619d84b94bc23566122358e449c8551a65e4842e9dd29843ac2c690045e4"
    );
}

#[test]
fn digest_is_the_same_on_every_call() {
    let first = digest("test_password", b"my_key");
    let second = digest("test_password", b"my_key");
    assert_eq!(first, second);
}

#[test]
fn digest_has_64_lower_case_digits() {
    let text = digest("test_password", b"my_key");
    assert_eq!(text.len(), 64);
    assert!(text.chars().all(|c| c.is_ascii_digit() || ('a'..='f').contains(&c)));
}

#[test]
fn digest_depends_on_password_and_key() {
    assert_ne!(digest("test_password", b"my_key"), digest("test_password", b"my_kez"));
    assert_ne!(digest("test_password", b"my_key"), digest("test_passwore", b"my_key"));
    assert_ne!(digest("my_key", b"test_password"), digest("test_password", b"my_key"));
}
