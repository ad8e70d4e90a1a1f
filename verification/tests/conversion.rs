use holo_dev::encoding::{to_utf8, ConvertError};

#[test]
fn ascii_is_kept() {
    assert_eq!(to_utf8(b"<html>abc</html>"), Ok(b"<html>abc</html>".to_vec()));
}

#[test]
fn empty_buffer_converts_to_empty_buffer() {
    assert_eq!(to_utf8(b""), Ok(Vec::new()));
}

#[test]
fn kana_and_kanji_are_converted() {
    // "あ" and "日本" in EUC-JP.
    assert_eq!(to_utf8(&[0xA4, 0xA2]), Ok("あ".as_bytes().to_vec()));
    assert_eq!(to_utf8(&[0xC6, 0xFC, 0xCB, 0xDC]), Ok("日本".as_bytes().to_vec()));
}

#[test]
fn truncated_sequence_is_a_decode_error() {
    assert_eq!(to_utf8(&[0x61, 0xA4]), Err(ConvertError::Decode));
}

#[test]
fn invalid_lead_byte_is_a_decode_error() {
    assert_eq!(to_utf8(&[0xFF, 0x41]), Err(ConvertError::Decode));
}

#[test]
fn converting_and_encoding_back_gives_the_bytes() {
    let raw: Vec<u8> = vec![
        0x3C, 0x70, 0x3E, 0xA5, 0xE1, 0xA5, 0xF3, 0xA5, 0xD0, 0xA1, 0xBC, 0xA1, 0xA7, 0x41, 0xA1,
        0xA2, 0x42, 0x3C, 0x2F, 0x70, 0x3E,
    ];
    let utf8 = to_utf8(&raw).unwrap();
    let text = String::from_utf8(utf8).unwrap();
    assert_eq!(text, "<p>メンバー：A、B</p>");
    let (back, _, unmappable) = encoding_rs::EUC_JP.encode(&text);
    assert!(!unmappable);
    assert_eq!(back.into_owned(), raw);
}
