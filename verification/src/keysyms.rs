use vstd::prelude::*;

verus! {

/// The "no symbol" keysym: a key position with no symbol bound resolves
/// to this value.
pub const KEYSYM_NONE: u32 = 0;

pub const KEYSYM_BACKSPACE: u32 = 0xff08;

pub const KEYSYM_TAB: u32 = 0xff09;

pub const KEYSYM_RETURN: u32 = 0xff0d;

pub const KEYSYM_ESCAPE: u32 = 0xff1b;

pub const KEYSYM_HOME: u32 = 0xff50;

pub const KEYSYM_LEFT: u32 = 0xff51;

pub const KEYSYM_UP: u32 = 0xff52;

pub const KEYSYM_RIGHT: u32 = 0xff53;

pub const KEYSYM_DOWN: u32 = 0xff54;

pub const KEYSYM_PAGE_UP: u32 = 0xff55;

pub const KEYSYM_PAGE_DOWN: u32 = 0xff56;

pub const KEYSYM_END: u32 = 0xff57;

pub const KEYSYM_INSERT: u32 = 0xff63;

pub const KEYSYM_DELETE: u32 = 0xffff;

/// First of the twelve function-key keysyms, `F1`.
pub const KEYSYM_F1: u32 = 0xffbe;

/// Last of the twelve function-key keysyms, `F12`.
pub const KEYSYM_F12: u32 = 0xffc9;

/// Keysyms of this value plus a Unicode code point name that code point
/// directly.
pub const KEYSYM_UNICODE_BASE: u32 = 0x1000000;

/// The largest keysym of the direct Unicode range.
pub const KEYSYM_UNICODE_LAST: u32 = 0x110ffff;

/// A resolved, application-facing key identity: a literal character or a
/// named key, independent of physical position.
#[derive(Clone, Copy, Debug, PartialEq, Eq, Structural)]
pub enum KeyCode {
    /// A literal character, with any shift level already applied by the
    /// layout.
    Char(char),
    Enter,
    Tab,
    Escape,
    Backspace,
    Delete,
    Home,
    End,
    PageUp,
    PageDown,
    LeftArrow,
    RightArrow,
    UpArrow,
    DownArrow,
    Insert,
    /// A numbered function key; `Function(1)` is `F1`.
    Function(u8),
}

/// True when `u` is a Unicode scalar value, the code points `char` can
/// hold.
pub open spec fn spec_is_scalar_value(u: u32) -> bool {
    u < 0xd800 || (0xe000 <= u && u <= 0x10ffff)
}

/// Relies on std's `char::from_u32`: it returns the character of code
/// point `u` exactly when `u` is a Unicode scalar value, and `None`
/// otherwise.
pub assume_specification[ char::from_u32 ](u: u32) -> (r: Option<char>)
    ensures
        r is Some <==> spec_is_scalar_value(u),
        r matches Some(c) ==> c as u32 == u,
;

/// Two characters with one code point are one character.
proof fn lemma_char_injective(a: char, b: char)
    requires
        a as u32 == b as u32,
    ensures
        a == b,
{
}

/// The logical key, if any, that a keysym maps to: printable Latin-1 and
/// direct Unicode keysyms map to their character, the named editing keys
/// and `F1` through `F12` map to their named variants, and every other
/// keysym has no mapping.
pub open spec fn spec_keycode_of(sym: u32) -> Option<KeyCode> {
    if sym == KEYSYM_RETURN {
        Some(KeyCode::Enter)
    } else if sym == KEYSYM_TAB {
        Some(KeyCode::Tab)
    } else if sym == KEYSYM_ESCAPE {
        Some(KeyCode::Escape)
    } else if sym == KEYSYM_BACKSPACE {
        Some(KeyCode::Backspace)
    } else if sym == KEYSYM_DELETE {
        Some(KeyCode::Delete)
    } else if sym == KEYSYM_HOME {
        Some(KeyCode::Home)
    } else if sym == KEYSYM_END {
        Some(KeyCode::End)
    } else if sym == KEYSYM_PAGE_UP {
        Some(KeyCode::PageUp)
    } else if sym == KEYSYM_PAGE_DOWN {
        Some(KeyCode::PageDown)
    } else if sym == KEYSYM_LEFT {
        Some(KeyCode::LeftArrow)
    } else if sym == KEYSYM_RIGHT {
        Some(KeyCode::RightArrow)
    } else if sym == KEYSYM_UP {
        Some(KeyCode::UpArrow)
    } else if sym == KEYSYM_DOWN {
        Some(KeyCode::DownArrow)
    } else if sym == KEYSYM_INSERT {
        Some(KeyCode::Insert)
    } else if KEYSYM_F1 <= sym && sym <= KEYSYM_F12 {
        Some(KeyCode::Function((sym - KEYSYM_F1 + 1) as u8))
    } else if (0x20 <= sym && sym <= 0x7e) || (0xa0 <= sym && sym <= 0xff) {
        Some(KeyCode::Char(sym as char))
    } else if KEYSYM_UNICODE_BASE <= sym && sym <= KEYSYM_UNICODE_LAST && spec_is_scalar_value(
        (sym - KEYSYM_UNICODE_BASE) as u32,
    ) {
        Some(KeyCode::Char((sym - KEYSYM_UNICODE_BASE) as char))
    } else {
        None
    }
}

/// Map a keysym to its logical key, or `None` when the keysym has no
/// mapping; such an event is dropped by the caller.
pub fn keysym_to_keycode(sym: u32) -> (r: Option<KeyCode>)
    ensures
        r == spec_keycode_of(sym),
{
    if sym == KEYSYM_RETURN {
        Some(KeyCode::Enter)
    } else if sym == KEYSYM_TAB {
        Some(KeyCode::Tab)
    } else if sym == KEYSYM_ESCAPE {
        Some(KeyCode::Escape)
    } else if sym == KEYSYM_BACKSPACE {
        Some(KeyCode::Backspace)
    } else if sym == KEYSYM_DELETE {
        Some(KeyCode::Delete)
    } else if sym == KEYSYM_HOME {
        Some(KeyCode::Home)
    } else if sym == KEYSYM_END {
        Some(KeyCode::End)
    } else if sym == KEYSYM_PAGE_UP {
        Some(KeyCode::PageUp)
    } else if sym == KEYSYM_PAGE_DOWN {
        Some(KeyCode::PageDown)
    } else if sym == KEYSYM_LEFT {
        Some(KeyCode::LeftArrow)
    } else if sym == KEYSYM_RIGHT {
        Some(KeyCode::RightArrow)
    } else if sym == KEYSYM_UP {
        Some(KeyCode::UpArrow)
    } else if sym == KEYSYM_DOWN {
        Some(KeyCode::DownArrow)
    } else if sym == KEYSYM_INSERT {
        Some(KeyCode::Insert)
    } else if KEYSYM_F1 <= sym && sym <= KEYSYM_F12 {
        let n: u32 = sym - KEYSYM_F1 + 1;
        Some(KeyCode::Function(n as u8))
    } else if (0x20 <= sym && sym <= 0x7e) || (0xa0 <= sym && sym <= 0xff) {
        match char::from_u32(sym) {
            Some(c) => {
                proof {
                    lemma_char_injective(c, sym as char);
                }
                Some(KeyCode::Char(c))
            },
            None => None,
        }
    } else if KEYSYM_UNICODE_BASE <= sym && sym <= KEYSYM_UNICODE_LAST {
        let cp: u32 = sym - KEYSYM_UNICODE_BASE;
        match char::from_u32(cp) {
            Some(c) => {
                proof {
                    lemma_char_injective(c, cp as char);
                }
                Some(KeyCode::Char(c))
            },
            None => None,
        }
    } else {
        None
    }
}

} // verus!
