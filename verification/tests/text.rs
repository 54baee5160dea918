use wechat_cli::text::{
    ends_with, hex_encode, i64_to_decimal, is_blank_text, same_text, u64_to_decimal,
};

#[test]
fn decimal_rendering() {
    assert_eq!(u64_to_decimal(0), "0");
    assert_eq!(u64_to_decimal(1234567890), "1234567890");
    assert_eq!(u64_to_decimal(u64::MAX), u64::MAX.to_string());
    assert_eq!(i64_to_decimal(-14), "-14");
    assert_eq!(i64_to_decimal(i64::MIN), i64::MIN.to_string());
    assert_eq!(u64_to_decimal(4096).parse::<u64>().unwrap(), 4096);
}

#[test]
fn hex_rendering() {
    assert_eq!(hex_encode(&[0x00, 0x0f, 0xab, 0xff]), "000fabff");
    assert_eq!(hex_encode(&[]), "");
}

#[test]
fn text_predicates() {
    assert!(ends_with("a@im.wechat", "@im.wechat"));
    assert!(!ends_with("wechat", "@im.wechat"));
    assert!(same_text("héllo", "héllo"));
    assert!(!same_text("a", "ab"));
    assert!(is_blank_text(""));
    assert!(is_blank_text(" \u{2003}\r\n"));
    assert!(!is_blank_text(" x "));
}
