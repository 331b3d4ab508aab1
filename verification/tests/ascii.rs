use header_value::ascii::{is_ascii, to_ascii_lowercase, to_lower_byte};
use header_value::text::ascii_into_string;

#[test]
fn is_ascii_accepts_the_whole_ascii_range() {
    let all: Vec<u8> = (0u8..=0x7f).collect();
    assert!(is_ascii(&all));
    assert!(is_ascii(b""));
    assert!(is_ascii(b"plain text"));
}

#[test]
fn is_ascii_rejects_a_high_byte_anywhere() {
    assert!(!is_ascii(b"\x80"));
    assert!(!is_ascii(b"\xffabc"));
    assert!(!is_ascii(b"ab\xc3\xa9cd"));
    assert!(!is_ascii(b"abc\x80"));
}

#[test]
fn is_ascii_agrees_with_the_standard_library() {
    for b in 0u8..=0xff {
        assert_eq!(is_ascii(&[b]), [b].is_ascii(), "byte {}", b);
    }
}

#[test]
fn to_lower_byte_maps_letters_only() {
    assert_eq!(to_lower_byte(b'A'), b'a');
    assert_eq!(to_lower_byte(b'M'), b'm');
    assert_eq!(to_lower_byte(b'Z'), b'z');
    assert_eq!(to_lower_byte(b'@'), b'@');
    assert_eq!(to_lower_byte(b'['), b'[');
    assert_eq!(to_lower_byte(b'a'), b'a');
    assert_eq!(to_lower_byte(b'z'), b'z');
    assert_eq!(to_lower_byte(b'0'), b'0');
    assert_eq!(to_lower_byte(0x00), 0x00);
    assert_eq!(to_lower_byte(0x7f), 0x7f);
    assert_eq!(to_lower_byte(0xc1), 0xc1);
    assert_eq!(to_lower_byte(0xff), 0xff);
}

#[test]
fn to_lower_byte_agrees_with_the_standard_library() {
    for b in 0u8..=0xff {
        assert_eq!(to_lower_byte(b), b.to_ascii_lowercase(), "byte {}", b);
    }
}

#[test]
fn to_ascii_lowercase_maps_each_byte() {
    assert_eq!(to_ascii_lowercase(b"Text/HTML"), b"text/html".to_vec());
    assert_eq!(to_ascii_lowercase(b""), Vec::<u8>::new());
    assert_eq!(to_ascii_lowercase(b"CAF\xc3\x89"), b"caf\xc3\x89".to_vec());
    let all: Vec<u8> = (0u8..=0xff).collect();
    assert_eq!(to_ascii_lowercase(&all), all.to_ascii_lowercase());
}

#[test]
fn ascii_into_string_spells_the_bytes() {
    assert_eq!(ascii_into_string(b"Text/HTML".to_vec()), "Text/HTML");
    assert_eq!(ascii_into_string(Vec::new()), "");
    let all: Vec<u8> = (0u8..=0x7f).collect();
    let text = ascii_into_string(all.clone());
    assert_eq!(text.len(), 128);
    assert_eq!(text.as_bytes(), &all[..]);
    let chars: Vec<char> = text.chars().collect();
    for b in 0u8..=0x7f {
        assert_eq!(chars[b as usize], char::from(b));
    }
}
