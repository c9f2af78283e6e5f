//! The function keys that arrive as text.
//!
//! F1 to F20 have a scancode of their own. For F21 to F24 the host sends a
//! character of the private use area instead, and the key is read from the
//! first UTF-16 code unit of that text.

use vstd::prelude::*;
use crate::keycode::VirtualKeyCode;

verus! {

/// The first code point beyond the basic multilingual plane.
pub const SUPPLEMENTARY_START: u32 = 0x10000;

/// The first of the high surrogates.
pub const HIGH_SURROGATE_START: u32 = 0xd800;

/// The first code unit of the UTF-16 encoding of `c`: the code point itself
/// in the basic plane, and beyond it the high surrogate of the pair.
pub open spec fn utf16_leading_unit(c: char) -> u16 {
    if (c as u32) < SUPPLEMENTARY_START {
        c as u16
    } else {
        (HIGH_SURROGATE_START + (c as u32 - SUPPLEMENTARY_START) / 0x400) as u16
    }
}

/// The first UTF-16 code unit of a text, `None` if the text is empty.
pub open spec fn first_utf16_unit(text: Seq<char>) -> Option<u16> {
    if text.len() > 0 {
        Some(utf16_leading_unit(text[0]))
    } else {
        None
    }
}

/// The function key that a UTF-16 code unit stands for.
pub open spec fn function_key(unit: u16) -> Option<VirtualKeyCode> {
    match unit {
        0xf718 => Some(VirtualKeyCode::F21),
        0xf719 => Some(VirtualKeyCode::F22),
        0xf71a => Some(VirtualKeyCode::F23),
        0xf71b => Some(VirtualKeyCode::F24),
        _ => None,
    }
}

/// The function key that a text stands for: that of its first UTF-16 code
/// unit.
pub open spec fn text_function_key(text: Seq<char>) -> Option<VirtualKeyCode> {
    match first_utf16_unit(text) {
        Some(unit) => function_key(unit),
        None => None,
    }
}

/// The function key that a character stands for.
pub open spec fn char_function_key(c: char) -> Option<VirtualKeyCode> {
    match c {
        '\u{f718}' => Some(VirtualKeyCode::F21),
        '\u{f719}' => Some(VirtualKeyCode::F22),
        '\u{f71a}' => Some(VirtualKeyCode::F23),
        '\u{f71b}' => Some(VirtualKeyCode::F24),
        _ => None,
    }
}

/// The leading unit of a character is one of the four function-key units
/// only for the character of the same number: no high surrogate is taken
/// for one of them.
pub proof fn lemma_function_key_of_char(c: char)
    ensures
        function_key(utf16_leading_unit(c)) == char_function_key(c),
{
    if (c as u32) >= SUPPLEMENTARY_START {
        let offset = c as u32 - SUPPLEMENTARY_START;
        assert(0 <= offset / 0x400 <= 0x3ff);
    }
}

/// A text stands for a function key exactly when its first character does.
pub proof fn lemma_function_key_by_char(text: Seq<char>)
    ensures
        text_function_key(text) == if text.len() > 0 {
            char_function_key(text[0])
        } else {
            None
        },
{
    if text.len() > 0 {
        lemma_function_key_of_char(text[0]);
    }
}

/// The first code unit of the UTF-16 encoding of `c`.
fn leading_unit(c: char) -> (unit: u16)
    ensures
        unit == utf16_leading_unit(c),
{
    let code_point = c as u32;
    if code_point < SUPPLEMENTARY_START {
        code_point as u16
    } else {
        let offset = code_point - SUPPLEMENTARY_START;
        (HIGH_SURROGATE_START + offset / 0x400) as u16
    }
}

/// Reads a function key from the text of a key event. Only the first UTF-16
/// code unit of `string` is looked at.
pub fn check_function_keys(string: &str) -> (key: Option<VirtualKeyCode>)
    ensures
        key == text_function_key(string@),
        string@.len() == 0 ==> key is None,
        string@.len() > 0 ==> key == char_function_key(string@[0]),
{
    proof {
        lemma_function_key_by_char(string@);
    }
    let mut chars = string.chars();
    if let Some(c) = chars.next() {
        return Some(
            match leading_unit(c) {
                0xf718 => VirtualKeyCode::F21,
                0xf719 => VirtualKeyCode::F22,
                0xf71a => VirtualKeyCode::F23,
                0xf71b => VirtualKeyCode::F24,
                _ => return None,
            },
        );
    }
    None
}

} // verus!
