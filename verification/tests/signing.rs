use taobao_order::sign::{get_sign_val, hex_string, sign_with_time, token};

#[test]
fn token_is_text_before_first_underscore() {
    assert_eq!(token("abc_123_4"), "abc");
    assert_eq!(token("abc"), "abc");
    assert_eq!(token("_x"), "");
    assert_eq!(token(""), "");
}

#[test]
fn hex_of_bytes() {
    assert_eq!(hex_string(&[0x00, 0x0f, 0xa0, 0xff]), "000fa0ff");
    assert_eq!(hex_string(&[]), "");
}

#[test]
fn signature_is_md5_of_joined_parts() {
    assert_eq!(
        sign_with_time("{}", "abc_1700000000999", "1700000000000"),
        "45762c9dfdec3201811682ed052e9254"
    );
    assert_eq!(sign_with_time("数据", "tok", "42"), "c445d79f3beabb7cf13d43d8351ccaab");
}

#[test]
fn signature_now_carries_its_time() {
    let (sign, t) = get_sign_val("{}", "abc_1").unwrap();
    assert!(t.chars().all(|c| c.is_ascii_digit()));
    assert!(t.len() >= 13);
    assert_eq!(sign, sign_with_time("{}", "abc_1", &t));
}
