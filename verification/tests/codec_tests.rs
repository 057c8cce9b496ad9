use openconnect_gui_win::base64::base64_decode;
use openconnect_gui_win::text::{str_eq, to_utf16};

/// A plain standard base64 encoder, used to check the decoder against.
fn encode(bytes: &[u8]) -> String {
    const CHARS: &[u8] = b"ABCDEFGHIJKLMNOPQRSTUVWXYZabcdefghijklmnopqrstuvwxyz0123456789+/";
    let mut out = String::new();
    for chunk in bytes.chunks(3) {
        let b0 = chunk[0] as u32;
        let b1 = if chunk.len() > 1 { chunk[1] as u32 } else { 0 };
        let b2 = if chunk.len() > 2 { chunk[2] as u32 } else { 0 };
        let n = (b0 << 16) | (b1 << 8) | b2;
        out.push(CHARS[((n >> 18) & 63) as usize] as char);
        out.push(CHARS[((n >> 12) & 63) as usize] as char);
        if chunk.len() > 1 {
            out.push(CHARS[((n >> 6) & 63) as usize] as char);
        } else {
            out.push('=');
        }
        if chunk.len() > 2 {
            out.push(CHARS[(n & 63) as usize] as char);
        } else {
            out.push('=');
        }
    }
    out
}

#[test]
fn base64_decodes_padded_text() {
    assert_eq!(base64_decode("aGVsbG8=").unwrap(), b"hello".to_vec());
    assert_eq!(base64_decode("YQ==").unwrap(), b"a".to_vec());
    assert_eq!(base64_decode("YWI=").unwrap(), b"ab".to_vec());
    assert_eq!(base64_decode("TWFu").unwrap(), b"Man".to_vec());
}

#[test]
fn base64_ignores_missing_or_extra_padding() {
    assert_eq!(base64_decode("aGVsbG8").unwrap(), b"hello".to_vec());
    assert_eq!(base64_decode("YQ=====").unwrap(), b"a".to_vec());
}

#[test]
fn base64_empty_and_short_inputs() {
    assert_eq!(base64_decode("").unwrap(), Vec::<u8>::new());
    assert_eq!(base64_decode("====").unwrap(), Vec::<u8>::new());
    // a single left-over character holds fewer than eight bits
    assert_eq!(base64_decode("Q").unwrap(), Vec::<u8>::new());
    assert_eq!(base64_decode("QUJDR").unwrap(), b"ABC".to_vec());
}

#[test]
fn base64_high_bits_and_symbols() {
    assert_eq!(base64_decode("AP+A").unwrap(), vec![0x00, 0xFF, 0x80]);
    assert_eq!(base64_decode("+/+/").unwrap(), vec![0xFB, 0xFF, 0xBF]);
}

#[test]
fn base64_rejects_characters_outside_the_alphabet() {
    assert!(base64_decode("a$b").is_err());
    assert!(base64_decode("YQ=a").is_err());
    assert!(base64_decode("aGVs bG8=").is_err());
    assert!(base64_decode("é").is_err());
    assert!(base64_decode("-_").is_err());
}

#[test]
fn base64_roundtrip_law_on_values() {
    let samples: Vec<Vec<u8>> = vec![
        vec![],
        vec![0],
        vec![1, 2],
        vec![255, 254, 253],
        (0u8..=255).collect(),
        b"{\"name\":\"x\"}".to_vec(),
    ];
    for s in samples {
        assert_eq!(base64_decode(&encode(&s)).unwrap(), s);
    }
}

#[test]
fn utf16_of_ascii_and_empty() {
    assert_eq!(to_utf16(""), vec![0u16]);
    assert_eq!(to_utf16("A"), vec![65u16, 0]);
    assert_eq!(to_utf16("OpenConnect VPN").len(), 16);
}

#[test]
fn utf16_of_bmp_and_supplementary_characters() {
    assert_eq!(to_utf16("é"), vec![0xE9u16, 0]);
    assert_eq!(to_utf16("€"), vec![0x20ACu16, 0]);
    assert_eq!(to_utf16("😀"), vec![0xD83Du16, 0xDE00, 0]);
    assert_eq!(to_utf16("\u{10FFFF}"), vec![0xDBFFu16, 0xDFFF, 0]);
}

#[test]
fn utf16_matches_std_encoding() {
    for s in ["Server: vpn", "日本語", "a😀b", "\u{FFFF}\u{10000}"] {
        let mut expected: Vec<u16> = s.encode_utf16().collect();
        expected.push(0);
        assert_eq!(to_utf16(s), expected);
    }
}

#[test]
fn str_eq_compares_characters() {
    assert!(str_eq("CONNECTED", "CONNECTED"));
    assert!(!str_eq("CONNECTED", "CONNECTING"));
    assert!(!str_eq("", "a"));
    assert!(str_eq("", ""));
    assert!(!str_eq("é", "e"));
}

#[test]
fn utf16_terminator_is_first_zero_without_nul() {
    for s in ["abc", "😀x", "Server: vpn.example.com"] {
        let u = to_utf16(s);
        assert_eq!(u.iter().position(|x| *x == 0), Some(u.len() - 1));
    }
}

#[test]
fn utf16_decodes_back_to_the_text() {
    for s in ["", "Connect Office", "é€😀", "\u{10FFFF}a"] {
        let u = to_utf16(s);
        assert_eq!(*u.last().unwrap(), 0);
        assert_eq!(String::from_utf16(&u[..u.len() - 1]).unwrap(), s);
        assert_eq!(u.len(), s.encode_utf16().count() + 1);
    }
}
