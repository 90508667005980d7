use caret_context::base64::base64_encode;
use caret_context::native_string::{cfstring_to_string, cstring_capacity};
use caret_context::utf16::{decode_utf16_lossy, encode_utf16};

#[test]
fn base64_matches_known_vectors() {
    assert_eq!(base64_encode(b""), "");
    assert_eq!(base64_encode(b"f"), "Zg==");
    assert_eq!(base64_encode(b"fo"), "Zm8=");
    assert_eq!(base64_encode(b"foo"), "Zm9v");
    assert_eq!(base64_encode(b"foob"), "Zm9vYg==");
    assert_eq!(base64_encode(b"fooba"), "Zm9vYmE=");
    assert_eq!(base64_encode(b"foobar"), "Zm9vYmFy");
}

#[test]
fn base64_uses_the_whole_alphabet() {
    let bytes: Vec<u8> = (0..48u32)
        .map(|i| {
            let group = i / 3 * 4;
            let value = (group << 18) | ((group + 1) << 12) | ((group + 2) << 6) | (group + 3);
            (value >> (16 - 8 * (i % 3))) as u8
        })
        .collect();
    assert_eq!(
        base64_encode(&bytes),
        "ABCDEFGHIJKLMNOPQRSTUVWXYZabcdefghijklmnopqrstuvwxyz0123456789+/"
    );
    assert_eq!(base64_encode(&[0xff, 0xff, 0xff, 0xfb]), "////+w==");
}

fn value_of(c: u8) -> u32 {
    match c {
        b'A'..=b'Z' => (c - b'A') as u32,
        b'a'..=b'z' => (c - b'a') as u32 + 26,
        b'0'..=b'9' => (c - b'0') as u32 + 52,
        b'+' => 62,
        b'/' => 63,
        _ => 0,
    }
}

#[test]
fn base64_decodes_to_what_was_encoded() {
    for n in 0..40usize {
        let bytes: Vec<u8> = (0..n).map(|i| (i * 37 + 200) as u8).collect();
        let text = base64_encode(&bytes).into_bytes();
        assert_eq!(text.len(), (n + 2) / 3 * 4);
        let pads = text.iter().filter(|c| **c == b'=').count();
        assert_eq!(pads, (3 - n % 3) % 3);
        let mut decoded: Vec<u8> = Vec::new();
        for group in text.chunks(4) {
            let value = (value_of(group[0]) << 18)
                | (value_of(group[1]) << 12)
                | (value_of(group[2]) << 6)
                | value_of(group[3]);
            decoded.extend([(value >> 16) as u8, (value >> 8) as u8, value as u8]);
        }
        decoded.truncate(decoded.len() - pads);
        assert_eq!(decoded, bytes);
    }
}

#[test]
fn utf16_is_that_of_the_standard_library() {
    for text in ["", "abc", "añodèé", "a\u{1f600}b", "\u{10ffff}\u{10000}\u{ffff}\u{e000}\u{d7ff}"] {
        let units: Vec<u16> = text.encode_utf16().collect();
        assert_eq!(encode_utf16(text), units);
        assert_eq!(decode_utf16_lossy(&units, 0, units.len()), text);
    }
    assert_eq!(encode_utf16("\u{1f600}"), vec![0xd83d, 0xde00]);
}

#[test]
fn unpaired_surrogates_are_replaced() {
    let cases: Vec<Vec<u16>> = vec![
        vec![0xd83d],
        vec![0xde00],
        vec![0xd83d, 0x61],
        vec![0xde00, 0xd83d],
        vec![0xd83d, 0xd83d, 0xde00],
        vec![0x61, 0xd83d, 0xde00, 0xde00, 0x62],
        vec![0xdbff, 0xdfff, 0xd800, 0xdc00],
    ];
    for units in cases {
        assert_eq!(
            decode_utf16_lossy(&units, 0, units.len()),
            String::from_utf16_lossy(&units)
        );
    }
    assert_eq!(decode_utf16_lossy(&[0xd83d, 0xde00], 1, 2), "\u{fffd}");
    assert_eq!(decode_utf16_lossy(&[0x61, 0x62, 0x63], 1, 2), "b");
}

#[test]
fn capacity_holds_the_utf8_form_and_the_terminator() {
    assert_eq!(cstring_capacity(0), 1);
    assert_eq!(cstring_capacity(5), 16);
    assert_eq!(cstring_capacity(-1), 1);
    for text in ["", "abc", "añodèé", "\u{20ac}\u{ffff}", "\u{1f600}\u{10ffff}"] {
        let units = encode_utf16(text).len();
        assert!(text.len() + 1 <= cstring_capacity(units as isize));
    }
}

#[test]
fn native_string_is_read_up_to_its_terminator() {
    let mut buffer = "año\u{1f600}".as_bytes().to_vec();
    buffer.extend([0, 0xff, 0x41]);
    assert_eq!(cfstring_to_string(Some(buffer)), Some("año\u{1f600}".to_string()));
    assert_eq!(cfstring_to_string(Some(vec![0])), Some(String::new()));
    assert_eq!(cfstring_to_string(Some(vec![])), Some(String::new()));
    assert_eq!(cfstring_to_string(Some(vec![0x68, 0x69])), Some("hi".to_string()));
    assert_eq!(cfstring_to_string(Some(vec![0x61, 0xff, 0])), None);
    assert_eq!(cfstring_to_string(Some(vec![0xed, 0xa0, 0x80, 0])), None);
    assert_eq!(cfstring_to_string(None), None);
}
