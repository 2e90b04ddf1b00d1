//! The key encoder: a pure function from a structured keypress to the
//! exact bytes a terminal expects.

use vstd::prelude::*;

verus! {

/// A keypress as the host reports it.
#[derive(Clone, Copy, Debug, PartialEq, Eq, Structural)]
pub enum Key {
    /// A printable character, with shift already applied by the platform.
    Character(char),
    Enter,
    Escape,
    Tab,
    Backspace,
    Delete,
    Insert,
    ArrowUp,
    ArrowDown,
    ArrowRight,
    ArrowLeft,
    Home,
    End,
    PageUp,
    PageDown,
    F1,
    F2,
    F3,
    F4,
    F5,
    F6,
    F7,
    F8,
    F9,
    F10,
    F11,
    F12,
    /// A key this encoder does not know; it encodes to no bytes, never to
    /// an error.
    Unidentified,
}

/// Modifier keys held with a keypress. Only `ctrl` changes an encoding;
/// shift is already reflected in the character and alt/meta are out of
/// scope.
#[derive(Clone, Copy, Debug, Default, PartialEq, Eq, Structural)]
pub struct Modifiers {
    pub ctrl: bool,
    pub alt: bool,
    pub shift: bool,
    pub meta: bool,
}

impl Modifiers {
    /// No modifiers held.
    pub fn none() -> (r: Self)
        ensures
            r == (Modifiers { ctrl: false, alt: false, shift: false, meta: false }),
    {
        Modifiers { ctrl: false, alt: false, shift: false, meta: false }
    }
}

/// Whether `c` is an ASCII letter.
pub open spec fn spec_is_ascii_alpha(c: char) -> bool {
    ('a' <= c && c <= 'z') || ('A' <= c && c <= 'Z')
}

/// The control byte of a letter: Ctrl+A is 1 through Ctrl+Z is 26,
/// whatever the letter's case.
pub open spec fn spec_ctrl_byte(c: char) -> u8 {
    if 'a' <= c && c <= 'z' {
        (c as u8 - 0x60) as u8
    } else {
        (c as u8 - 0x40) as u8
    }
}

/// The UTF-8 encoding of one character.
pub open spec fn spec_utf8_encode(c: char) -> Seq<u8> {
    let v = c as int;
    if v < 0x80 {
        seq![v as u8]
    } else if v < 0x800 {
        seq![(0xc0 + v / 64) as u8, (0x80 + v % 64) as u8]
    } else if v < 0x10000 {
        seq![(0xe0 + v / 4096) as u8, (0x80 + (v / 64) % 64) as u8, (0x80 + v % 64) as u8]
    } else {
        seq![
            (0xf0 + v / 262144) as u8,
            (0x80 + (v / 4096) % 64) as u8,
            (0x80 + (v / 64) % 64) as u8,
            (0x80 + v % 64) as u8,
        ]
    }
}

/// The bytes `encode_key` produces: printable characters pass through as
/// UTF-8 unless Ctrl is held with a letter, which gives the control byte;
/// named keys map to their fixed control or escape sequences (Backspace
/// is 0x08 here); unknown keys give no bytes.
pub open spec fn spec_encode_key(key: Key, mods: Modifiers) -> Seq<u8> {
    match key {
        Key::Character(c) => {
            if mods.ctrl && spec_is_ascii_alpha(c) {
                seq![spec_ctrl_byte(c)]
            } else {
                spec_utf8_encode(c)
            }
        },
        Key::Enter => seq![0x0du8],
        Key::Escape => seq![0x1bu8],
        Key::Tab => seq![0x09u8],
        Key::Backspace => seq![0x08u8],
        Key::Delete => seq![0x1bu8, 0x5bu8, 0x33u8, 0x7eu8],
        Key::Insert => seq![0x1bu8, 0x5bu8, 0x32u8, 0x7eu8],
        Key::ArrowUp => seq![0x1bu8, 0x5bu8, 0x41u8],
        Key::ArrowDown => seq![0x1bu8, 0x5bu8, 0x42u8],
        Key::ArrowRight => seq![0x1bu8, 0x5bu8, 0x43u8],
        Key::ArrowLeft => seq![0x1bu8, 0x5bu8, 0x44u8],
        Key::Home => seq![0x1bu8, 0x5bu8, 0x48u8],
        Key::End => seq![0x1bu8, 0x5bu8, 0x46u8],
        Key::PageUp => seq![0x1bu8, 0x5bu8, 0x35u8, 0x7eu8],
        Key::PageDown => seq![0x1bu8, 0x5bu8, 0x36u8, 0x7eu8],
        Key::F1 => seq![0x1bu8, 0x4fu8, 0x50u8],
        Key::F2 => seq![0x1bu8, 0x4fu8, 0x51u8],
        Key::F3 => seq![0x1bu8, 0x4fu8, 0x52u8],
        Key::F4 => seq![0x1bu8, 0x4fu8, 0x53u8],
        Key::F5 => seq![0x1bu8, 0x5bu8, 0x31u8, 0x35u8, 0x7eu8],
        Key::F6 => seq![0x1bu8, 0x5bu8, 0x31u8, 0x37u8, 0x7eu8],
        Key::F7 => seq![0x1bu8, 0x5bu8, 0x31u8, 0x38u8, 0x7eu8],
        Key::F8 => seq![0x1bu8, 0x5bu8, 0x31u8, 0x39u8, 0x7eu8],
        Key::F9 => seq![0x1bu8, 0x5bu8, 0x32u8, 0x30u8, 0x7eu8],
        Key::F10 => seq![0x1bu8, 0x5bu8, 0x32u8, 0x31u8, 0x7eu8],
        Key::F11 => seq![0x1bu8, 0x5bu8, 0x32u8, 0x33u8, 0x7eu8],
        Key::F12 => seq![0x1bu8, 0x5bu8, 0x32u8, 0x34u8, 0x7eu8],
        Key::Unidentified => Seq::empty(),
    }
}

/// Append the UTF-8 encoding of `c` to `out`.
fn push_utf8(out: &mut Vec<u8>, c: char)
    ensures
        final(out)@ == old(out)@ + spec_utf8_encode(c),
{
    let v = c as u32;
    if v < 0x80 {
        out.push(v as u8);
    } else if v < 0x800 {
        proof {
            assert(v / 64 < 0x20) by (nonlinear_arith)
                requires
                    v < 0x800,
            ;
        }
        out.push(0xc0 + (v / 64) as u8);
        out.push(0x80 + (v % 64) as u8);
    } else if v < 0x10000 {
        proof {
            assert(v / 4096 < 0x10) by (nonlinear_arith)
                requires
                    v < 0x10000,
            ;
        }
        out.push(0xe0 + (v / 4096) as u8);
        out.push(0x80 + ((v / 64) % 64) as u8);
        out.push(0x80 + (v % 64) as u8);
    } else {
        proof {
            assert(v / 262144 < 0x8) by (nonlinear_arith)
                requires
                    v < 0x110000,
            ;
        }
        out.push(0xf0 + (v / 262144) as u8);
        out.push(0x80 + ((v / 4096) % 64) as u8);
        out.push(0x80 + ((v / 64) % 64) as u8);
        out.push(0x80 + (v % 64) as u8);
    }
    proof {
        assert(final(out)@ =~= old(out)@ + spec_utf8_encode(c));
    }
}

/// Encode a keypress into the bytes a terminal expects; see
/// [`spec_encode_key`]. Pure: no state, no failure.
pub fn encode_key(key: &Key, modifiers: Modifiers) -> (r: Vec<u8>)
    ensures
        r@ == spec_encode_key(*key, modifiers),
{
    let mut out: Vec<u8> = Vec::new();
    match key {
        Key::Character(c) => {
            let ch = *c;
            if modifiers.ctrl && (('a' <= ch && ch <= 'z') || ('A' <= ch && ch <= 'Z')) {
                if 'a' <= ch && ch <= 'z' {
                    out.push(ch as u8 - 0x60);
                } else {
                    out.push(ch as u8 - 0x40);
                }
            } else {
                push_utf8(&mut out, ch);
            }
        },
        Key::Enter => out.push(0x0d),
        Key::Escape => out.push(0x1b),
        Key::Tab => out.push(0x09),
        Key::Backspace => out.push(0x08),
        Key::Delete => {
            out.push(0x1b);
            out.push(0x5b);
            out.push(0x33);
            out.push(0x7e);
        },
        Key::Insert => {
            out.push(0x1b);
            out.push(0x5b);
            out.push(0x32);
            out.push(0x7e);
        },
        Key::ArrowUp => {
            out.push(0x1b);
            out.push(0x5b);
            out.push(0x41);
        },
        Key::ArrowDown => {
            out.push(0x1b);
            out.push(0x5b);
            out.push(0x42);
        },
        Key::ArrowRight => {
            out.push(0x1b);
            out.push(0x5b);
            out.push(0x43);
        },
        Key::ArrowLeft => {
            out.push(0x1b);
            out.push(0x5b);
            out.push(0x44);
        },
        Key::Home => {
            out.push(0x1b);
            out.push(0x5b);
            out.push(0x48);
        },
        Key::End => {
            out.push(0x1b);
            out.push(0x5b);
            out.push(0x46);
        },
        Key::PageUp => {
            out.push(0x1b);
            out.push(0x5b);
            out.push(0x35);
            out.push(0x7e);
        },
        Key::PageDown => {
            out.push(0x1b);
            out.push(0x5b);
            out.push(0x36);
            out.push(0x7e);
        },
        Key::F1 => {
            out.push(0x1b);
            out.push(0x4f);
            out.push(0x50);
        },
        Key::F2 => {
            out.push(0x1b);
            out.push(0x4f);
            out.push(0x51);
        },
        Key::F3 => {
            out.push(0x1b);
            out.push(0x4f);
            out.push(0x52);
        },
        Key::F4 => {
            out.push(0x1b);
            out.push(0x4f);
            out.push(0x53);
        },
        Key::F5 => {
            out.push(0x1b);
            out.push(0x5b);
            out.push(0x31);
            out.push(0x35);
            out.push(0x7e);
        },
        Key::F6 => {
            out.push(0x1b);
            out.push(0x5b);
            out.push(0x31);
            out.push(0x37);
            out.push(0x7e);
        },
        Key::F7 => {
            out.push(0x1b);
            out.push(0x5b);
            out.push(0x31);
            out.push(0x38);
            out.push(0x7e);
        },
        Key::F8 => {
            out.push(0x1b);
            out.push(0x5b);
            out.push(0x31);
            out.push(0x39);
            out.push(0x7e);
        },
        Key::F9 => {
            out.push(0x1b);
            out.push(0x5b);
            out.push(0x32);
            out.push(0x30);
            out.push(0x7e);
        },
        Key::F10 => {
            out.push(0x1b);
            out.push(0x5b);
            out.push(0x32);
            out.push(0x31);
            out.push(0x7e);
        },
        Key::F11 => {
            out.push(0x1b);
            out.push(0x5b);
            out.push(0x32);
            out.push(0x33);
            out.push(0x7e);
        },
        Key::F12 => {
            out.push(0x1b);
            out.push(0x5b);
            out.push(0x32);
            out.push(0x34);
            out.push(0x7e);
        },
        Key::Unidentified => {},
    }
    proof {
        assert(out@ =~= spec_encode_key(*key, modifiers));
    }
    out
}

} // verus!
