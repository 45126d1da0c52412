use switchboard::wide::{decode_utf16, decode_utf16_lossy, decode_until_nul, parse_multi_sz, units_from_le_bytes, wide_nul};

#[test]
fn wide_nul_encodes_and_terminates() {
    assert_eq!(wide_nul("runas"), vec![0x72, 0x75, 0x6E, 0x61, 0x73, 0]);
    assert_eq!(wide_nul(""), vec![0]);
    let expected: Vec<u16> = "a😀é".encode_utf16().chain(std::iter::once(0)).collect();
    assert_eq!(wide_nul("a😀é"), expected);
}

#[test]
fn decode_of_encode_round_trips() {
    for s in ["", "plain", "C:\\Program Files\\x.exe", "😀 ☃ \u{10FFFF}"] {
        let w = wide_nul(s);
        assert_eq!(decode_utf16(&w[..w.len() - 1]), Some(s.to_string()));
        assert_eq!(decode_until_nul(&w), Some(s.to_string()));
    }
}

#[test]
fn strict_and_lossy_decoding() {
    assert_eq!(decode_utf16(&[0xD83D, 0xDE00]), Some("😀".to_string()));
    assert_eq!(decode_utf16(&[0xDE00]), None);
    assert_eq!(decode_utf16_lossy(&[0x41, 0xDE00, 0xD83D, 0x42]), "A\u{FFFD}\u{FFFD}B");
    assert_eq!(decode_utf16_lossy(&[0xD83D, 0xDE00]), "😀");
}

#[test]
fn multi_sz_lists() {
    let units: Vec<u16> = vec![0x61, 0, 0xD800, 0, 0x62, 0x63, 0, 0, 0x64, 0];
    assert_eq!(parse_multi_sz(&units), vec!["a".to_string(), "bc".to_string()]);
    assert!(parse_multi_sz(&[]).is_empty());
    assert_eq!(parse_multi_sz(&[0x61]), Vec::<String>::new());
}

#[test]
fn little_endian_units() {
    assert_eq!(units_from_le_bytes(&[0x41, 0x00, 0x3D, 0xD8, 0x07]), vec![0x0041, 0xD83D]);
}
