use triton_rs::{decode_string, encode_string, lossy_text, Error};

#[test]
fn round_trip_mixed_strings() {
    let strings = vec!["", "abc", "héllo wörld", "日本語", "", "🦀 crab"];
    let mut buffer = Vec::new();
    for s in &strings {
        buffer.extend_from_slice(&encode_string(s));
    }
    let decoded = decode_string(&buffer).unwrap();
    assert_eq!(decoded, strings);
}

#[test]
fn round_trip_no_strings() {
    let buffer: Vec<u8> = Vec::new();
    assert_eq!(decode_string(&buffer).unwrap(), Vec::<String>::new());
}

#[test]
fn decode_empty_buffer() {
    assert_eq!(decode_string(&[]).unwrap(), Vec::<String>::new());
}

#[test]
fn decode_truncated_length_prefix() {
    assert_eq!(decode_string(&[0x01, 0x00, 0x00]), Err(Error::Decode));
}

#[test]
fn decode_truncated_payload() {
    assert_eq!(
        decode_string(&[0x05, 0x00, 0x00, 0x00, 0x61, 0x62]),
        Err(Error::Decode)
    );
}

#[test]
fn decode_truncated_second_record() {
    assert_eq!(
        decode_string(&[0x01, 0x00, 0x00, 0x00, 0x61, 0x02, 0x00]),
        Err(Error::Decode)
    );
}

#[test]
fn encode_abc() {
    assert_eq!(
        encode_string("abc"),
        vec![0x03, 0x00, 0x00, 0x00, 0x61, 0x62, 0x63]
    );
}

#[test]
fn encode_empty_string() {
    assert_eq!(encode_string(""), vec![0x00, 0x00, 0x00, 0x00]);
}

#[test]
fn encode_multibyte_length_counts_bytes() {
    assert_eq!(encode_string("é"), vec![0x02, 0x00, 0x00, 0x00, 0xC3, 0xA9]);
}

#[test]
fn encode_long_string_length_bytes() {
    let s = "x".repeat(0x0102);
    let bytes = encode_string(&s);
    assert_eq!(&bytes[..4], &[0x02, 0x01, 0x00, 0x00]);
    assert_eq!(bytes.len(), 4 + 0x0102);
}

#[test]
fn decode_two_records() {
    let data = [
        0x02, 0x00, 0x00, 0x00, 0x61, 0x62, 0x03, 0x00, 0x00, 0x00, 0x63, 0x64, 0x65,
    ];
    assert_eq!(decode_string(&data).unwrap(), vec!["ab", "cde"]);
}

#[test]
fn decode_replaces_invalid_utf8() {
    let data = [0x03, 0x00, 0x00, 0x00, 0x61, 0xFF, 0x62];
    assert_eq!(decode_string(&data).unwrap(), vec!["a\u{FFFD}b"]);
}

#[test]
fn lossy_text_keeps_valid_and_replaces_invalid() {
    assert_eq!(lossy_text("ünï".as_bytes()), "ünï");
    assert_eq!(lossy_text(&[0x68, 0x80, 0x69]), "h\u{FFFD}i");
}
