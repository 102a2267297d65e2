//! Decoding of the engine's numeric key codes into keys.

use vstd::prelude::*;

verus! {

/// Engine code of the function key F1. The engine numbers its keys
/// downwards from the top of the 16-bit range, the function keys first.
pub const KEY_F1: u16 = 0xFFFF;

/// Engine code of the function key F2.
pub const KEY_F2: u16 = 0xFFFE;

/// Engine code of the function key F3.
pub const KEY_F3: u16 = 0xFFFD;

/// Engine code of the function key F4.
pub const KEY_F4: u16 = 0xFFFC;

/// Engine code of the function key F5.
pub const KEY_F5: u16 = 0xFFFB;

/// Engine code of the function key F6.
pub const KEY_F6: u16 = 0xFFFA;

/// Engine code of the function key F7.
pub const KEY_F7: u16 = 0xFFF9;

/// Engine code of the function key F8.
pub const KEY_F8: u16 = 0xFFF8;

/// Engine code of the function key F9.
pub const KEY_F9: u16 = 0xFFF7;

/// Engine code of the function key F10.
pub const KEY_F10: u16 = 0xFFF6;

/// Engine code of the function key F11.
pub const KEY_F11: u16 = 0xFFF5;

/// Engine code of the function key F12.
pub const KEY_F12: u16 = 0xFFF4;

/// Engine code of the Insert key.
pub const KEY_INSERT: u16 = 0xFFF3;

/// Engine code of the Delete key.
pub const KEY_DELETE: u16 = 0xFFF2;

/// Engine code of the Home key.
pub const KEY_HOME: u16 = 0xFFF1;

/// Engine code of the End key.
pub const KEY_END: u16 = 0xFFF0;

/// Engine code of the Page Up key.
pub const KEY_PGUP: u16 = 0xFFEF;

/// Engine code of the Page Down key.
pub const KEY_PGDN: u16 = 0xFFEE;

/// Engine code of the up arrow.
pub const KEY_ARROW_UP: u16 = 0xFFED;

/// Engine code of the down arrow.
pub const KEY_ARROW_DOWN: u16 = 0xFFEC;

/// Engine code of the left arrow.
pub const KEY_ARROW_LEFT: u16 = 0xFFEB;

/// Engine code of the right arrow, the lowest of the engine's own codes
/// that stands for a key.
pub const KEY_ARROW_RIGHT: u16 = 0xFFEA;

/// One decoded keypress.
#[derive(PartialEq, Eq, Structural, Clone, Copy, Debug)]
pub enum Key {
    Tab,
    Enter,
    Esc,
    Backspace,
    Right,
    Left,
    Up,
    Down,
    Delete,
    Insert,
    Home,
    End,
    PgUp,
    PgDn,
    /// A printable character.
    Char(char),
    /// A character typed together with the control key.
    Ctrl(char),
    /// A function key, numbered from 1.
    F(u16),
}

/// Whether `c` is an ASCII control code: one of the first 32 code points,
/// or DEL.
pub open spec fn is_control_code(c: char) -> bool {
    (c as u32) < 32 || c as u32 == 127
}

/// Whether `code` is one of the codes that stand for a key: the ASCII
/// control range with the space that follows it, DEL, and the engine's
/// codes for the cursor, editing and function keys.
pub open spec fn is_key_code(code: u16) -> bool {
    1 <= code <= 32 || code == 127 || code >= KEY_ARROW_RIGHT
}

/// The key that a code stands for, if any.
///
/// Backspace, Tab and Enter keep their names although their codes lie in
/// the range of the control letters; both codes that terminals send for
/// Backspace give `Backspace`. Every other code from 1 to 26 is the control
/// key with the letter at that place of the alphabet. The four codes that
/// follow Esc have the characters that terminals conventionally bind to
/// them, which follow no formula.
pub open spec fn decode(code: u16) -> Option<Key> {
    if code == 8 || code == 127 {
        Some(Key::Backspace)
    } else if code == 9 {
        Some(Key::Tab)
    } else if code == 13 {
        Some(Key::Enter)
    } else if 1 <= code <= 26 {
        Some(Key::Ctrl((0x60 + code) as char))
    } else if code == 27 {
        Some(Key::Esc)
    } else if code == 28 {
        Some(Key::Ctrl('\\'))
    } else if code == 29 {
        Some(Key::Ctrl(']'))
    } else if code == 30 {
        Some(Key::Ctrl('6'))
    } else if code == 31 {
        Some(Key::Ctrl('/'))
    } else if code == 32 {
        Some(Key::Char(' '))
    } else if code >= KEY_F12 {
        Some(Key::F((KEY_F1 - code + 1) as u16))
    } else if code == KEY_INSERT {
        Some(Key::Insert)
    } else if code == KEY_DELETE {
        Some(Key::Delete)
    } else if code == KEY_HOME {
        Some(Key::Home)
    } else if code == KEY_END {
        Some(Key::End)
    } else if code == KEY_PGUP {
        Some(Key::PgUp)
    } else if code == KEY_PGDN {
        Some(Key::PgDn)
    } else if code == KEY_ARROW_UP {
        Some(Key::Up)
    } else if code == KEY_ARROW_DOWN {
        Some(Key::Down)
    } else if code == KEY_ARROW_LEFT {
        Some(Key::Left)
    } else if code == KEY_ARROW_RIGHT {
        Some(Key::Right)
    } else {
        None
    }
}

impl Key {
    /// Whether the key is one that decoding can give: a character it
    /// carries is no control code, and a function key is one of the twelve.
    pub open spec fn is_canonical(self) -> bool {
        match self {
            Key::Char(c) => !is_control_code(c),
            Key::Ctrl(c) => !is_control_code(c),
            Key::F(n) => 1 <= n <= 12,
            _ => true,
        }
    }

    /// Decodes a key code of the engine. `None` means that the code stands
    /// for no key.
    pub fn from_code(code: u16) -> (r: Option<Key>)
        ensures
            r == decode(code),
            r is Some <==> is_key_code(code),
            r matches Some(key) ==> key.is_canonical(),
    {
        proof {
            lemma_decode_canonical(code);
        }
        match code {
            8 => Some(Key::Backspace),
            9 => Some(Key::Tab),
            13 => Some(Key::Enter),
            1..=26 => {
                let letter: u8 = 0x60u8 + (code as u8);
                Some(Key::Ctrl(letter as char))
            },
            27 => Some(Key::Esc),
            28 => Some(Key::Ctrl('\\')),
            29 => Some(Key::Ctrl(']')),
            30 => Some(Key::Ctrl('6')),
            31 => Some(Key::Ctrl('/')),
            32 => Some(Key::Char(' ')),
            127 => Some(Key::Backspace),
            KEY_ARROW_LEFT => Some(Key::Left),
            KEY_ARROW_RIGHT => Some(Key::Right),
            KEY_ARROW_UP => Some(Key::Up),
            KEY_ARROW_DOWN => Some(Key::Down),
            KEY_INSERT => Some(Key::Insert),
            KEY_DELETE => Some(Key::Delete),
            KEY_HOME => Some(Key::Home),
            KEY_END => Some(Key::End),
            KEY_PGUP => Some(Key::PgUp),
            KEY_PGDN => Some(Key::PgDn),
            KEY_F1 => Some(Key::F(1)),
            KEY_F2 => Some(Key::F(2)),
            KEY_F3 => Some(Key::F(3)),
            KEY_F4 => Some(Key::F(4)),
            KEY_F5 => Some(Key::F(5)),
            KEY_F6 => Some(Key::F(6)),
            KEY_F7 => Some(Key::F(7)),
            KEY_F8 => Some(Key::F(8)),
            KEY_F9 => Some(Key::F(9)),
            KEY_F10 => Some(Key::F(10)),
            KEY_F11 => Some(Key::F(11)),
            KEY_F12 => Some(Key::F(12)),
            _ => None,
        }
    }
}

/// A code from 1 to 26 is the control key with the letter at that place of
/// the alphabet, unless it is the code of Backspace, Tab or Enter.
pub proof fn lemma_control_letters(code: u16)
    requires
        1 <= code <= 26,
        code != 8,
        code != 9,
        code != 13,
    ensures
        decode(code) == Some(Key::Ctrl((0x60 + code) as char)),
        'a' <= ((0x60 + code) as char) <= 'z',
        ((0x60 + code) as char) as int == 'a' as int + (code - 1),
{
}

/// Two different codes never stand for the same key, but for the two codes
/// of Backspace.
pub proof fn lemma_decode_injective(a: u16, b: u16)
    requires
        decode(a) is Some,
        decode(a) == decode(b),
    ensures
        a == b || (a == 8 && b == 127) || (a == 127 && b == 8),
{
    if 1 <= a <= 26 && 1 <= b <= 26 {
        assert(((0x60 + a) as char) as int == 0x60 + a);
        assert(((0x60 + b) as char) as int == 0x60 + b);
    }
}

/// The codes that stand for a key are the codes of the fixed tables, and
/// no others.
pub proof fn lemma_decode_domain(code: u16)
    ensures
        decode(code) is Some <==> is_key_code(code),
{
}

/// A decoded key is canonical: what it carries is never a control code,
/// and its function key number is within 1 to 12.
pub proof fn lemma_decode_canonical(code: u16)
    ensures
        decode(code) matches Some(key) ==> key.is_canonical(),
{
    if 1 <= code <= 26 {
        assert(((0x60 + code) as char) as u32 == 0x60 + code);
    }
}

} // verus!
