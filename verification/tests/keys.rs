use term_engine::encoder::{encode_key, Key, Modifiers};
use term_engine::paste::encode_paste;

#[test]
fn test_encode_key_basic() {
    assert_eq!(
        encode_key(&Key::Character('a'), Modifiers::default()),
        vec![b'a']
    );
    assert_eq!(encode_key(&Key::Enter, Modifiers::default()), vec![b'\r']);
    assert_eq!(encode_key(&Key::Tab, Modifiers::default()), vec![b'\t']);
}

#[test]
fn test_encode_key_ctrl() {
    let mut mods = Modifiers::default();
    mods.ctrl = true;
    assert_eq!(encode_key(&Key::Character('a'), mods), vec![0x01]); // Ctrl+A
    assert_eq!(encode_key(&Key::Character('c'), mods), vec![0x03]); // Ctrl+C
}

#[test]
fn test_encode_key_arrows() {
    assert_eq!(
        encode_key(&Key::ArrowUp, Modifiers::default()),
        vec![0x1b, b'[', b'A']
    );
    assert_eq!(
        encode_key(&Key::ArrowDown, Modifiers::default()),
        vec![0x1b, b'[', b'B']
    );
}

#[test]
fn test_encode_key_ctrl_uppercase() {
    let mut mods = Modifiers::default();
    mods.ctrl = true;
    assert_eq!(encode_key(&Key::Character('C'), mods), vec![0x03]);
    assert_eq!(encode_key(&Key::Character('Z'), mods), vec![0x1a]);
}

#[test]
fn test_encode_key_ctrl_nonalpha_passes_through() {
    let mut mods = Modifiers::default();
    mods.ctrl = true;
    assert_eq!(encode_key(&Key::Character('1'), mods), vec![b'1']);
}

#[test]
fn test_encode_key_named() {
    let m = Modifiers::default();
    assert_eq!(encode_key(&Key::Escape, m), vec![0x1b]);
    assert_eq!(encode_key(&Key::Backspace, m), vec![0x08]);
    assert_eq!(encode_key(&Key::Delete, m), b"\x1b[3~".to_vec());
    assert_eq!(encode_key(&Key::Insert, m), b"\x1b[2~".to_vec());
    assert_eq!(encode_key(&Key::Home, m), b"\x1b[H".to_vec());
    assert_eq!(encode_key(&Key::End, m), b"\x1b[F".to_vec());
    assert_eq!(encode_key(&Key::PageUp, m), b"\x1b[5~".to_vec());
    assert_eq!(encode_key(&Key::PageDown, m), b"\x1b[6~".to_vec());
    assert_eq!(encode_key(&Key::ArrowRight, m), b"\x1b[C".to_vec());
    assert_eq!(encode_key(&Key::ArrowLeft, m), b"\x1b[D".to_vec());
}

#[test]
fn test_encode_key_function_keys() {
    let m = Modifiers::default();
    assert_eq!(encode_key(&Key::F1, m), b"\x1bOP".to_vec());
    assert_eq!(encode_key(&Key::F4, m), b"\x1bOS".to_vec());
    assert_eq!(encode_key(&Key::F5, m), b"\x1b[15~".to_vec());
    assert_eq!(encode_key(&Key::F12, m), b"\x1b[24~".to_vec());
}

#[test]
fn test_encode_key_utf8_character() {
    let m = Modifiers::default();
    assert_eq!(encode_key(&Key::Character('\u{e9}'), m), vec![0xc3, 0xa9]);
    assert_eq!(
        encode_key(&Key::Character('\u{4f60}'), m),
        vec![0xe4, 0xbd, 0xa0]
    );
}

#[test]
fn test_encode_key_unidentified_is_empty() {
    assert_eq!(
        encode_key(&Key::Unidentified, Modifiers::default()),
        Vec::<u8>::new()
    );
}

#[test]
fn test_paste_normalizes_line_endings() {
    let out = encode_paste(&b"one\r\ntwo\nthree\r".to_vec(), false);
    assert_eq!(out, b"one\rtwo\rthree\r".to_vec());
}

#[test]
fn test_paste_bracketed_strips_escapes() {
    let out = encode_paste(&b"ab\x1bcd".to_vec(), true);
    assert_eq!(out, b"\x1b[200~abcd\x1b[201~".to_vec());
}
