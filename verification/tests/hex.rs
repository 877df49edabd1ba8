use credential_hasher::to_lower_hex;

#[test]
fn hex_of_nothing_is_empty() {
    assert_eq!(to_lower_hex(&[]), "");
}

#[test]
fn hex_has_two_digits_for_each_byte() {
    assert_eq!(to_lower_hex(&[0x00]), "00");
    assert_eq!(to_lower_hex(&[0x0f]), "0f");
    assert_eq!(to_lower_hex(&[0xf0]), "f0");
    assert_eq!(to_lower_hex(&[0xff]), "ff");
}

#[test]
fn hex_keeps_the_order_of_the_bytes() {
    assert_eq!(to_lower_hex(&[0x01, 0x23, 0x45, 0x67, 0x89, 0xab, 0xcd, 0xef]), "0123456789abcdef");
    assert_eq!(to_lower_hex(&[0xde, 0xad, 0xbe, 0xef, 0x00, 0x10]), "deadbeef0010");
}

#[test]
fn hex_of_every_byte() {
    let digits = "0123456789abcdef";
    for byte in 0..=255u8 {
        let high = &digits[(byte / 16) as usize..(byte / 16) as usize + 1];
        let low = &digits[(byte % 16) as usize..(byte % 16) as usize + 1];
        assert_eq!(to_lower_hex(&[byte]), format!("{}{}", high, low));
    }
}
