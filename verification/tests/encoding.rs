use mdeno::encoding::{
    is_utf8_label, normalize_encoding_label, strip_chars, EncodeProgress, TextDecoder, TextEncoder,
};

#[test]
fn labels_are_normalized() {
    assert_eq!(normalize_encoding_label("UTF-8"), "utf8");
    assert_eq!(normalize_encoding_label("utf_8"), "utf8");
    assert_eq!(normalize_encoding_label("Unicode-1-1-UTF-8"), "unicode11utf8");
    assert_eq!(normalize_encoding_label("ISO-8859-1"), "iso88591");
    assert_eq!(normalize_encoding_label(""), "");
    assert_eq!(normalize_encoding_label("ÄB_c"), "äbc");
}

#[test]
fn only_utf8_labels_are_supported() {
    assert!(is_utf8_label("utf8"));
    assert!(is_utf8_label("unicode11utf8"));
    assert!(!is_utf8_label("utf-8"));
    assert!(!is_utf8_label("utf16"));
    assert!(!is_utf8_label(""));
}

#[test]
fn strip_chars_keeps_the_order_of_the_rest() {
    let text: Vec<char> = "a-b_c--d".chars().collect();
    let stripped: String = strip_chars(&text, '-', '_').into_iter().collect();
    assert_eq!(stripped, "abcd");
}

#[test]
fn decoder_construction() {
    let default = TextDecoder::new(None, false, false).unwrap();
    assert_eq!(default.encoding(), "utf-8");
    assert!(!default.fatal());
    assert!(!default.ignore_bom());

    let labelled = TextDecoder::new(Some("UTF_8".to_string()), true, true).unwrap();
    assert_eq!(labelled.encoding(), "utf-8");
    assert!(labelled.fatal());
    assert!(labelled.ignore_bom());

    let refused = TextDecoder::new(Some("latin1".to_string()), false, false);
    assert_eq!(
        refused.err(),
        Some("The encoding label provided ('latin1') is invalid.".to_string())
    );
}

#[test]
fn decoding_valid_text() {
    let decoder = TextDecoder::new(None, false, false).unwrap();
    assert_eq!(decoder.decode("héllo".as_bytes().to_vec()), Ok("héllo".to_string()));
    assert_eq!(decoder.decode(Vec::new()), Ok(String::new()));
}

#[test]
fn the_byte_order_mark_is_dropped_unless_kept() {
    let bytes = vec![0xEF, 0xBB, 0xBF, b'h', b'i'];
    let dropping = TextDecoder::new(None, false, false).unwrap();
    assert_eq!(dropping.decode(bytes.clone()), Ok("hi".to_string()));
    let keeping = TextDecoder::new(None, false, true).unwrap();
    assert_eq!(keeping.decode(bytes), Ok("\u{FEFF}hi".to_string()));
}

#[test]
fn invalid_bytes_are_replaced_or_refused() {
    let bytes = vec![b'a', 0xFF, b'b'];
    let lenient = TextDecoder::new(None, false, false).unwrap();
    assert_eq!(lenient.decode(bytes.clone()), Ok("a\u{FFFD}b".to_string()));
    let fatal = TextDecoder::new(None, true, false).unwrap();
    let fault = String::from_utf8(bytes.clone()).unwrap_err().to_string();
    assert!(!fault.is_empty());
    assert_eq!(
        fatal.decode(bytes),
        Err(format!("The encoded data was not valid UTF-8: {}", fault))
    );
    assert_eq!(fatal.decode(b"fine".to_vec()), Ok("fine".to_string()));
}

#[test]
fn encoder_basics() {
    let encoder = TextEncoder::new();
    assert_eq!(encoder.encoding(), "utf-8");
    assert_eq!(TextEncoder::default().encoding(), "utf-8");
    assert_eq!(encoder.encode("hé"), vec![b'h', 0xC3, 0xA9]);
    assert_eq!(encoder.encode(""), Vec::<u8>::new());
}

#[test]
fn encode_into_counts_whole_characters() {
    let encoder = TextEncoder::new();
    assert_eq!(encoder.encode_into("hello", 10), EncodeProgress { read: 5, written: 5 });
    assert_eq!(encoder.encode_into("hello", 3), EncodeProgress { read: 3, written: 3 });
    assert_eq!(encoder.encode_into("hello", 0), EncodeProgress { read: 0, written: 0 });
    assert_eq!(encoder.encode_into("", 4), EncodeProgress { read: 0, written: 0 });
    // "é" takes two bytes, "€" three, "😀" four bytes and two UTF-16 units
    assert_eq!(encoder.encode_into("é€😀", 9), EncodeProgress { read: 4, written: 9 });
    assert_eq!(encoder.encode_into("é€😀", 8), EncodeProgress { read: 2, written: 8 });
    assert_eq!(encoder.encode_into("é€😀", 4), EncodeProgress { read: 1, written: 4 });
    assert_eq!(encoder.encode_into("é€😀", 1), EncodeProgress { read: 0, written: 1 });
    assert_eq!(encoder.encode_into("a😀b", 5), EncodeProgress { read: 3, written: 5 });
}
