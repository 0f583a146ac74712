use pixel_bootctl::hexutil::{decode, encode};

#[test]
fn round_trip() {
    let bytes = [0x00, 0x01, 0xfe, 0xca, 0xff];
    assert_eq!(decode(&encode(&bytes)).unwrap(), bytes);
}

#[test]
fn strips_whitespace_and_decodes() {
    assert_eq!(decode("01 02\t03\n").unwrap(), vec![1, 2, 3]);
}

#[test]
fn rejects_odd_and_nonhex() {
    assert!(decode("abc").is_err());
    assert!(decode("zz").is_err());
}

#[test]
fn encodes_lowercase_padded() {
    assert_eq!(encode(&[0x0a, 0xb0]), "0ab0");
}

#[test]
fn every_byte_comes_back() {
    let all: Vec<u8> = (0..=255).collect();
    assert_eq!(decode(&encode(&all)).unwrap(), all);
    for b in 0..=255u8 {
        assert_eq!(encode(&[b]), format!("{b:02x}"));
    }
    assert_eq!(encode(&[]), "");
    assert_eq!(decode("").unwrap(), Vec::<u8>::new());
}

#[test]
fn text_comes_back_in_lower_case() {
    assert_eq!(encode(&decode("DE ad\u{a0}Be\u{2003}eF").unwrap()), "deadbeef");
}

#[test]
fn error_texts() {
    assert_eq!(decode("abc").unwrap_err(), "hex must have even length");
    assert_eq!(decode(" a b c ").unwrap_err(), "hex must have even length");
    let invalid = u8::from_str_radix("zz", 16).unwrap_err().to_string();
    for s in ["zz", "0g", "g0", "00zz", "-1", "0x", "++", "1+", "+f", "+00A", "00+1", "\u{e9}", "00\u{e9}\u{e9}"] {
        assert_eq!(decode(s).unwrap_err(), invalid);
    }
    // A lone character of three bytes makes the length odd.
    assert_eq!(decode("\u{20ac}").unwrap_err(), "hex must have even length");
}

#[test]
fn pairs_read_as_radix_sixteen_numbers() {
    for a in 0u8..128 {
        for b in 0u8..128 {
            let s: String = [a as char, b as char].iter().collect();
            if s.chars().any(|c| c.is_whitespace()) {
                continue;
            }
            if s.chars().all(|c| c.is_ascii_hexdigit()) {
                assert_eq!(decode(&s).unwrap(), vec![u8::from_str_radix(&s, 16).unwrap()]);
            } else {
                assert_eq!(decode(&s).unwrap_err(), "invalid digit found in string");
            }
        }
    }
}

#[test]
fn white_space_is_unicode_white_space() {
    for u in 0..=0x10ffffu32 {
        if let Some(c) = char::from_u32(u) {
            let s = format!("a{c}b");
            let ignored = decode(&s) == Ok(vec![0xab]);
            assert_eq!(ignored, c.is_whitespace(), "{u:#x}");
        }
    }
}

#[test]
fn wide_characters_are_refused() {
    // Even where two bytes end inside a character, and whatever decoded before it.
    for s in ["a\u{e9}1", "0a\u{20ac}\u{20ac}", "\u{1f600}", "ab1\u{20ac}", "zza\u{e9}1"] {
        assert!(s.len() % 2 == 0);
        assert_eq!(decode(s).unwrap_err(), "invalid digit found in string");
    }
    assert_eq!(decode("a\u{e9}").unwrap_err(), "hex must have even length");
}
