use gpg_error::text::{escaped_text, lossy_text, push_decimal, push_escaped, resume_after};

fn lossy_inputs() -> Vec<Vec<u8>> {
    vec![
        vec![],
        b"No data".to_vec(),
        "Schl\u{fc}ssel nicht gefunden".as_bytes().to_vec(),
        "\u{20ac}\u{10348}".as_bytes().to_vec(),
        // a byte that never occurs in UTF-8, between valid text
        vec![b'a', 0xff, b'b'],
        // Latin-1 text
        vec![b'S', b'c', b'h', b'l', 0xfc, b's', b's', b'e', b'l'],
        // a character cut short by the end of the input
        vec![b'a', 0xe2, 0x82],
        vec![0xf0, 0x90, 0x80],
        // a character cut short by an ASCII byte
        vec![0xe2, 0x82, b'A'],
        // an overlong encoding, a surrogate, a value past the last scalar
        vec![0xc0, 0x80],
        vec![0xed, 0xa0, 0x80],
        vec![0xf4, 0x90, 0x80, 0x80],
        // continuation bytes on their own
        vec![0x80, 0xbf, 0x80],
        // several faults in a row, then valid text
        vec![0xff, 0xfe, 0xfd, b'o', b'k'],
        vec![b'x', 0xe2, 0x28, 0xa1, b'y', 0xf0, 0x28, 0x8c, 0xbc, b'z'],
    ]
}

#[test]
fn lossy_text_keeps_valid_text() {
    assert_eq!(lossy_text(b""), "");
    assert_eq!(lossy_text(b"No data"), "No data");
    assert_eq!(lossy_text("gr\u{fc}n \u{20ac}".as_bytes()), "gr\u{fc}n \u{20ac}");
}

#[test]
fn lossy_text_replaces_each_invalid_sequence() {
    assert_eq!(lossy_text(&[b'a', 0xff, b'b']), "a\u{fffd}b");
    assert_eq!(lossy_text(&[0xff, 0xfe]), "\u{fffd}\u{fffd}");
    assert_eq!(lossy_text(&[0xe2, 0x82, b'A']), "\u{fffd}A");
    assert_eq!(lossy_text(&[0xc0, 0x80]), "\u{fffd}\u{fffd}");
}

#[test]
fn lossy_text_ends_after_a_character_cut_short() {
    assert_eq!(lossy_text(&[b'a', 0xe2, 0x82]), "a\u{fffd}");
    assert_eq!(lossy_text(&[0xf0, 0x90, 0x80]), "\u{fffd}");
}

#[test]
fn lossy_text_agrees_with_the_standard_library() {
    for input in lossy_inputs() {
        assert_eq!(lossy_text(&input), String::from_utf8_lossy(&input));
    }
    for b in 0..=255u8 {
        for c in [0x00u8, 0x41, 0x80, 0xbf, 0xc2, 0xe0, 0xf0, 0xff] {
            let input = [b, c, b'!'];
            assert_eq!(lossy_text(&input), String::from_utf8_lossy(&input));
        }
    }
}

#[test]
fn resume_after_an_invalid_sequence() {
    assert_eq!(resume_after(10, 3, Some(2)), Some(5));
    assert_eq!(resume_after(10, 0, Some(1)), Some(1));
    assert_eq!(resume_after(10, 9, Some(1)), Some(10));
    assert_eq!(resume_after(10, 7, Some(3)), Some(10));
}

#[test]
fn resume_after_the_end_or_nothing() {
    // the input ends in the middle of a character
    assert_eq!(resume_after(10, 8, None), None);
    // a sequence that is empty or does not lie inside the input
    assert_eq!(resume_after(10, 3, Some(0)), None);
    assert_eq!(resume_after(10, 9, Some(2)), None);
    assert_eq!(resume_after(10, 11, Some(1)), None);
    assert_eq!(resume_after(usize::MAX, 1, Some(usize::MAX)), None);
}

#[test]
fn escaped_byte_by_byte() {
    let cases: [(u8, &str); 14] = [
        (b'\t', "\\t"),
        (b'\r', "\\r"),
        (b'\n', "\\n"),
        (b'\'', "\\'"),
        (b'"', "\\\""),
        (b'\\', "\\\\"),
        (b' ', " "),
        (b'a', "a"),
        (b'~', "~"),
        (0x00, "\\x00"),
        (0x1f, "\\x1f"),
        (0x7f, "\\x7f"),
        (0x9d, "\\x9d"),
        (0xff, "\\xff"),
    ];
    for (byte, expected) in cases {
        let mut out = String::from(">");
        push_escaped(&mut out, byte);
        assert_eq!(out, format!(">{}", expected));
    }
}

#[test]
fn escaped_bytes_agree_with_the_standard_library() {
    for b in 0..=255u8 {
        let mut out = String::new();
        push_escaped(&mut out, b);
        assert_eq!(out, b.escape_ascii().to_string());
    }
}

#[test]
fn escaped_text_is_quoted() {
    assert_eq!(escaped_text(b""), "\"\"");
    assert_eq!(escaped_text(b"No data"), "\"No data\"");
    assert_eq!(escaped_text(b"a\"b"), "\"a\\\"b\"");
    assert_eq!(escaped_text(&[b'S', 0xfc, b'\n']), "\"S\\xfc\\n\"");
    let all: Vec<u8> = (0..=255u8).collect();
    assert_eq!(escaped_text(&all), format!("\"{}\"", all.escape_ascii()));
}

#[test]
fn decimal_digits() {
    let cases: [(u32, &str); 8] = [
        (0, "0"),
        (7, "7"),
        (10, "10"),
        (58, "58"),
        (305, "305"),
        (32849, "32849"),
        (1000000, "1000000"),
        (u32::MAX, "4294967295"),
    ];
    for (n, expected) in cases {
        let mut out = String::from("n=");
        push_decimal(&mut out, n);
        assert_eq!(out, format!("n={}", expected));
        assert_eq!(out, format!("n={}", n));
    }
}
