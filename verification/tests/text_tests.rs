use win_context_menu::text::{
    ansi_buf_to_string, has_extended_prefix, menu_label, strip_extended_prefix, to_bytes_nul,
    verb_from_answer, verb_from_text,
};
use win_context_menu::wide::{decode_wide_lossy, to_wide_nul};

#[test]
fn wide_encoding_of_ascii_and_bmp() {
    assert_eq!(to_wide_nul("Ab"), vec![0x41, 0x62, 0]);
    assert_eq!(to_wide_nul(""), vec![0]);
    assert_eq!(to_wide_nul("\u{8cbc}"), vec![0x8cbc, 0]);
}

#[test]
fn wide_encoding_of_supplementary_char() {
    // U+1F600 is the surrogate pair D83D DE00.
    assert_eq!(to_wide_nul("\u{1F600}"), vec![0xD83D, 0xDE00, 0]);
    assert_eq!(to_wide_nul("\u{10FFFF}"), vec![0xDBFF, 0xDFFF, 0]);
    assert_eq!(to_wide_nul("\u{10000}"), vec![0xD800, 0xDC00, 0]);
}

#[test]
fn wide_encoding_matches_std() {
    for s in ["C:\\Windows\\notepad.exe", "貼り付け(V)", "a\u{1F600}b", "é"] {
        let mut expected: Vec<u16> = s.encode_utf16().collect();
        expected.push(0);
        assert_eq!(to_wide_nul(s), expected);
    }
}

#[test]
fn wide_decoding_replaces_unpaired_surrogates() {
    assert_eq!(decode_wide_lossy(&[0x48, 0x69]), "Hi");
    assert_eq!(decode_wide_lossy(&[0xD83D, 0xDE00]), "\u{1F600}");
    assert_eq!(decode_wide_lossy(&[0xD83D, 0x41]), "\u{FFFD}A");
    assert_eq!(decode_wide_lossy(&[0xDE00, 0xD83D]), "\u{FFFD}\u{FFFD}");
    assert_eq!(decode_wide_lossy(&[0xD800]), "\u{FFFD}");
    assert_eq!(decode_wide_lossy(&[]), "");
}

#[test]
fn wide_decoding_matches_std() {
    let cases: [&[u16]; 4] = [&[0x41, 0xD800, 0xDC00], &[0xDC00], &[0xD800, 0xD800, 0xDC00], &[0x263A]];
    for units in cases {
        assert_eq!(decode_wide_lossy(units), String::from_utf16_lossy(units));
    }
}

#[test]
fn wide_round_trip() {
    for s in ["", "plain", "貼り付け(V)", "\u{1F600}x\u{10FFFF}"] {
        let wide = to_wide_nul(s);
        assert_eq!(decode_wide_lossy(&wide[..wide.len() - 1]), s);
    }
}

#[test]
fn menu_label_strips_accelerators() {
    let units: Vec<u16> = "&Open with...".encode_utf16().collect();
    assert_eq!(menu_label(&units), "Open with...");
    let units: Vec<u16> = "Cu&t && &Paste".encode_utf16().collect();
    assert_eq!(menu_label(&units), "Cut  Paste");
    assert_eq!(menu_label(&[]), "");
}

#[test]
fn menu_label_is_idempotent() {
    let units: Vec<u16> = "&&A&b".encode_utf16().collect();
    let once = menu_label(&units);
    let again: Vec<u16> = once.encode_utf16().collect();
    assert_eq!(menu_label(&again), once);
    assert!(!once.contains('&'));
}

#[test]
fn ansi_buffer_stops_at_first_nul() {
    assert_eq!(ansi_buf_to_string(b"open\0garbage"), "open");
    assert_eq!(ansi_buf_to_string(b"properties"), "properties");
    assert_eq!(ansi_buf_to_string(b"\0abc"), "");
    assert_eq!(ansi_buf_to_string(b""), "");
}

#[test]
fn ansi_buffer_tail_after_nul_is_ignored() {
    let mut a = [0u8; 256];
    a[..4].copy_from_slice(b"copy");
    let mut b = a;
    b[5] = b'x';
    assert_eq!(ansi_buf_to_string(&a), ansi_buf_to_string(&b));
}

#[test]
fn ansi_buffer_invalid_utf8_is_replaced() {
    assert_eq!(ansi_buf_to_string(&[0x61, 0xFF, 0x62, 0]), "a\u{FFFD}b");
}

#[test]
fn verb_from_answer_cases() {
    assert_eq!(verb_from_answer(&None), None);
    let mut buf = vec![0u8; 256];
    assert_eq!(verb_from_answer(&Some(buf.clone())), None);
    buf[..10].copy_from_slice(b"properties");
    assert_eq!(verb_from_answer(&Some(buf)), Some("properties".to_string()));
}

#[test]
fn extended_prefix_is_stripped() {
    assert!(has_extended_prefix(r"\\?\C:\Windows"));
    assert_eq!(strip_extended_prefix(r"\\?\C:\Windows\notepad.exe"), r"C:\Windows\notepad.exe");
    assert!(!has_extended_prefix(r"C:\Windows"));
    assert_eq!(strip_extended_prefix(r"C:\Windows"), r"C:\Windows");
    assert_eq!(strip_extended_prefix(r"\\?\"), "");
    assert_eq!(strip_extended_prefix(r"\\?"), r"\\?");
    assert_eq!(strip_extended_prefix(r"\\server\share"), r"\\server\share");
}

#[test]
fn verb_bytes_are_utf8_with_nul() {
    assert_eq!(to_bytes_nul("paste"), b"paste\0".to_vec());
    assert_eq!(to_bytes_nul("é"), vec![0xC3, 0xA9, 0]);
}

#[test]
fn verb_from_text_cases() {
    assert_eq!(verb_from_text(String::new()), None);
    assert_eq!(verb_from_text("open".to_string()), Some("open".to_string()));
}

#[test]
fn ansi_text_and_verbs_hold_no_nul() {
    let text = ansi_buf_to_string(&[0x61, 0xFF, 0xC3, 0, 0x62]);
    assert!(!text.contains('\0'));
    assert_eq!(text, "a\u{FFFD}\u{FFFD}");
    let verb = verb_from_answer(&Some(vec![0x6F, 0x70, 0xFE, 0, 0])).unwrap();
    assert!(!verb.is_empty() && !verb.contains('\0'));
}
