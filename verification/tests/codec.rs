use face_data::codec::{
    is_face_too_long, str_from_u8_nul_utf8, str_to_u8_nul_utf8, utf16_len, FACE_TEXT_LIMIT,
};

#[test]
fn encode_appends_one_nul() {
    assert_eq!(str_to_u8_nul_utf8(":)"), vec![0x3a, 0x29, 0x00]);
    assert_eq!(str_to_u8_nul_utf8(""), vec![0x00]);
    assert_eq!(str_to_u8_nul_utf8("é"), vec![0xc3, 0xa9, 0x00]);
    assert_eq!(str_to_u8_nul_utf8("😀"), vec![0xf0, 0x9f, 0x98, 0x80, 0x00]);
}

#[test]
fn decode_stops_at_first_nul() {
    assert_eq!(str_from_u8_nul_utf8(b"hi\0garbage"), Ok("hi"));
    assert_eq!(str_from_u8_nul_utf8(b"hi\0\0\0\0"), Ok("hi"));
    assert_eq!(str_from_u8_nul_utf8(b"\0hi"), Ok(""));
}

#[test]
fn decode_without_nul_takes_everything() {
    assert_eq!(str_from_u8_nul_utf8(b"hi"), Ok("hi"));
    assert_eq!(str_from_u8_nul_utf8(b""), Ok(""));
    assert_eq!(str_from_u8_nul_utf8("€uro".as_bytes()), Ok("€uro"));
}

#[test]
fn decode_ignores_invalid_bytes_behind_the_nul() {
    assert_eq!(str_from_u8_nul_utf8(b"ok\0\xff\xfe"), Ok("ok"));
}

#[test]
fn decode_rejects_invalid_utf8_before_the_nul() {
    let error = str_from_u8_nul_utf8(b"a\xff\0").unwrap_err();
    assert_eq!(error.valid_up_to(), 1);
    assert!(str_from_u8_nul_utf8(&[0xc3]).is_err());
    assert!(str_from_u8_nul_utf8(&[0xed, 0xa0, 0x80, 0x00]).is_err());
    assert!(str_from_u8_nul_utf8(&[0xc0, 0x80]).is_err());
}

#[test]
fn decode_gives_the_error_of_the_text_bytes_alone() {
    let with_tail = str_from_u8_nul_utf8(b"ab\xffcd\0\xff").unwrap_err();
    let alone = std::str::from_utf8(b"ab\xffcd").unwrap_err();
    assert_eq!(with_tail, alone);
}

#[test]
fn text_round_trips() {
    for text in ["", ":)", "abc", "a b c", "héllo", "日本語", "😀😀", "x\u{10ffff}y"] {
        let stored = str_to_u8_nul_utf8(text);
        assert_eq!(str_from_u8_nul_utf8(&stored), Ok(text));
    }
}

#[test]
fn text_with_embedded_nul_is_cut_on_decode() {
    let stored = str_to_u8_nul_utf8("a\0b");
    assert_eq!(stored, vec![b'a', 0, b'b', 0]);
    assert_eq!(str_from_u8_nul_utf8(&stored), Ok("a"));
}

#[test]
fn utf16_len_counts_code_units() {
    assert_eq!(utf16_len(""), 0);
    assert_eq!(utf16_len("abc"), 3);
    assert_eq!(utf16_len("é"), 1);
    assert_eq!(utf16_len("€"), 1);
    assert_eq!(utf16_len("\u{ffff}"), 1);
    assert_eq!(utf16_len("\u{10000}"), 2);
    assert_eq!(utf16_len("😀"), 2);
    assert_eq!(utf16_len("a😀"), 3);
    assert_eq!(utf16_len("😀😀"), 4);
}

#[test]
fn utf16_len_agrees_with_encode_utf16() {
    for text in ["", ":)", "héllo wörld", "日本語", "🐴🐴🐴", "a\0b", "\u{7f}\u{80}\u{7ff}\u{800}"] {
        assert_eq!(utf16_len(text), text.encode_utf16().count());
    }
}

#[test]
fn length_rule() {
    assert_eq!(FACE_TEXT_LIMIT, 3);
    assert!(!is_face_too_long(""));
    assert!(!is_face_too_long(":)"));
    assert!(!is_face_too_long("abc"));
    assert!(is_face_too_long("abcd"));
    assert!(is_face_too_long("😀😀"));
    assert!(!is_face_too_long("a😀"));
    assert!(!is_face_too_long("日本語"));
}
