//! Between the character that a key types and the key.
//!
//! A scancode names a position on the keyboard, and under a layout that is
//! not a Latin one the position no longer says which letter, digit or sign
//! the key stands for. For these keys the character that was typed is the
//! better witness. Two tables are kept, one from a key to its two characters
//! and one from a character to its key, and they are proved to be inverse to
//! each other.

use vstd::prelude::*;
use crate::keycode::VirtualKeyCode;
use crate::modifiers::{Modifier, ModifiersState};

verus! {

/// The two characters of a key: the one it types alone, and the one it types
/// with shift. `None` for a key that types no character.
pub open spec fn glyphs(key: VirtualKeyCode) -> Option<(char, char)> {
    match key {
        VirtualKeyCode::A => Some(('a', 'A')),
        VirtualKeyCode::B => Some(('b', 'B')),
        VirtualKeyCode::C => Some(('c', 'C')),
        VirtualKeyCode::D => Some(('d', 'D')),
        VirtualKeyCode::E => Some(('e', 'E')),
        VirtualKeyCode::F => Some(('f', 'F')),
        VirtualKeyCode::G => Some(('g', 'G')),
        VirtualKeyCode::H => Some(('h', 'H')),
        VirtualKeyCode::I => Some(('i', 'I')),
        VirtualKeyCode::J => Some(('j', 'J')),
        VirtualKeyCode::K => Some(('k', 'K')),
        VirtualKeyCode::L => Some(('l', 'L')),
        VirtualKeyCode::M => Some(('m', 'M')),
        VirtualKeyCode::N => Some(('n', 'N')),
        VirtualKeyCode::O => Some(('o', 'O')),
        VirtualKeyCode::P => Some(('p', 'P')),
        VirtualKeyCode::Q => Some(('q', 'Q')),
        VirtualKeyCode::R => Some(('r', 'R')),
        VirtualKeyCode::S => Some(('s', 'S')),
        VirtualKeyCode::T => Some(('t', 'T')),
        VirtualKeyCode::U => Some(('u', 'U')),
        VirtualKeyCode::V => Some(('v', 'V')),
        VirtualKeyCode::W => Some(('w', 'W')),
        VirtualKeyCode::X => Some(('x', 'X')),
        VirtualKeyCode::Y => Some(('y', 'Y')),
        VirtualKeyCode::Z => Some(('z', 'Z')),
        VirtualKeyCode::Key1 => Some(('1', '!')),
        VirtualKeyCode::Key2 => Some(('2', '@')),
        VirtualKeyCode::Key3 => Some(('3', '#')),
        VirtualKeyCode::Key4 => Some(('4', '$')),
        VirtualKeyCode::Key5 => Some(('5', '%')),
        VirtualKeyCode::Key6 => Some(('6', '^')),
        VirtualKeyCode::Key7 => Some(('7', '&')),
        VirtualKeyCode::Key8 => Some(('8', '*')),
        VirtualKeyCode::Key9 => Some(('9', '(')),
        VirtualKeyCode::Key0 => Some(('0', ')')),
        VirtualKeyCode::Equals => Some(('=', '+')),
        VirtualKeyCode::Minus => Some(('-', '_')),
        VirtualKeyCode::RBracket => Some((']', '}')),
        VirtualKeyCode::LBracket => Some(('[', '{')),
        VirtualKeyCode::Apostrophe => Some(('\'', '"')),
        VirtualKeyCode::Semicolon => Some((';', ':')),
        VirtualKeyCode::Backslash => Some(('\\', '|')),
        VirtualKeyCode::Comma => Some((',', '<')),
        VirtualKeyCode::Slash => Some(('/', '?')),
        VirtualKeyCode::Period => Some(('.', '>')),
        VirtualKeyCode::Grave => Some(('`', '~')),
        _ => None,
    }
}

/// Whether `c` is one of the two characters of `key`.
pub open spec fn types(key: VirtualKeyCode, c: char) -> bool {
    glyphs(key) matches Some(pair) && (c == pair.0 || c == pair.1)
}

/// The character that `key` types: its shifted one if `shift` is set, its
/// plain one if not.
pub open spec fn key_char(key: VirtualKeyCode, shift: bool) -> Option<char> {
    match glyphs(key) {
        Some(pair) => Some(if shift { pair.1 } else { pair.0 }),
        None => None,
    }
}

/// The key that types `c`, if there is one. Whether shift was held is not
/// recorded: that is read from the modifier state.
pub open spec fn char_key(c: char) -> Option<VirtualKeyCode> {
    match c {
        'a' | 'A' => Some(VirtualKeyCode::A),
        'b' | 'B' => Some(VirtualKeyCode::B),
        'c' | 'C' => Some(VirtualKeyCode::C),
        'd' | 'D' => Some(VirtualKeyCode::D),
        'e' | 'E' => Some(VirtualKeyCode::E),
        'f' | 'F' => Some(VirtualKeyCode::F),
        'g' | 'G' => Some(VirtualKeyCode::G),
        'h' | 'H' => Some(VirtualKeyCode::H),
        'i' | 'I' => Some(VirtualKeyCode::I),
        'j' | 'J' => Some(VirtualKeyCode::J),
        'k' | 'K' => Some(VirtualKeyCode::K),
        'l' | 'L' => Some(VirtualKeyCode::L),
        'm' | 'M' => Some(VirtualKeyCode::M),
        'n' | 'N' => Some(VirtualKeyCode::N),
        'o' | 'O' => Some(VirtualKeyCode::O),
        'p' | 'P' => Some(VirtualKeyCode::P),
        'q' | 'Q' => Some(VirtualKeyCode::Q),
        'r' | 'R' => Some(VirtualKeyCode::R),
        's' | 'S' => Some(VirtualKeyCode::S),
        't' | 'T' => Some(VirtualKeyCode::T),
        'u' | 'U' => Some(VirtualKeyCode::U),
        'v' | 'V' => Some(VirtualKeyCode::V),
        'w' | 'W' => Some(VirtualKeyCode::W),
        'x' | 'X' => Some(VirtualKeyCode::X),
        'y' | 'Y' => Some(VirtualKeyCode::Y),
        'z' | 'Z' => Some(VirtualKeyCode::Z),
        '1' | '!' => Some(VirtualKeyCode::Key1),
        '2' | '@' => Some(VirtualKeyCode::Key2),
        '3' | '#' => Some(VirtualKeyCode::Key3),
        '4' | '$' => Some(VirtualKeyCode::Key4),
        '5' | '%' => Some(VirtualKeyCode::Key5),
        '6' | '^' => Some(VirtualKeyCode::Key6),
        '7' | '&' => Some(VirtualKeyCode::Key7),
        '8' | '*' => Some(VirtualKeyCode::Key8),
        '9' | '(' => Some(VirtualKeyCode::Key9),
        '0' | ')' => Some(VirtualKeyCode::Key0),
        '=' | '+' => Some(VirtualKeyCode::Equals),
        '-' | '_' => Some(VirtualKeyCode::Minus),
        ']' | '}' => Some(VirtualKeyCode::RBracket),
        '[' | '{' => Some(VirtualKeyCode::LBracket),
        '\'' | '"' => Some(VirtualKeyCode::Apostrophe),
        ';' | ':' => Some(VirtualKeyCode::Semicolon),
        '\\' | '|' => Some(VirtualKeyCode::Backslash),
        ',' | '<' => Some(VirtualKeyCode::Comma),
        '/' | '?' => Some(VirtualKeyCode::Slash),
        '.' | '>' => Some(VirtualKeyCode::Period),
        '`' | '~' => Some(VirtualKeyCode::Grave),
        _ => None,
    }
}

/// The character table is the glyph table read backwards: `c` resolves to
/// `key` exactly when `key` types `c`. So no character stands on two keys,
/// and every character of a key resolves.
pub proof fn lemma_char_key_inverts_glyphs(key: VirtualKeyCode, c: char)
    ensures
        char_key(c) == Some(key) <==> types(key, c),
{
}

/// The character that a key types, with shift or without, resolves to that
/// key.
pub proof fn lemma_key_char_resolves(key: VirtualKeyCode, shift: bool)
    requires
        key_char(key, shift) is Some,
    ensures
        char_key(key_char(key, shift).unwrap()) == Some(key),
{
    lemma_char_key_inverts_glyphs(key, key_char(key, shift).unwrap());
}

/// A character resolves only to a key that types it, without shift or with
/// it; a character that does not resolve is typed by no key.
pub proof fn lemma_char_key_types(c: char)
    ensures
        char_key(c) matches Some(key) ==> key_char(key, false) == Some(c) || key_char(key, true)
            == Some(c),
        char_key(c) is None ==> forall|key: VirtualKeyCode, shift: bool|
            key_char(key, shift) != Some(c),
{
    if let Some(key) = char_key(c) {
        lemma_char_key_inverts_glyphs(key, c);
    } else {
        assert forall|key: VirtualKeyCode, shift: bool| key_char(key, shift) != Some(c) by {
            lemma_char_key_inverts_glyphs(key, c);
        }
    }
}

/// Shift selects between two glyphs: a key that types a character without
/// shift types another one with it, and a key that types none without shift
/// types none with it.
pub proof fn lemma_shift_selects(key: VirtualKeyCode)
    ensures
        key_char(key, false) is Some <==> key_char(key, true) is Some,
        key_char(key, false) is Some ==> key_char(key, false) != key_char(key, true),
{
}

/// The key that a typed character stands for.
pub fn char_to_keycode(c: char) -> (key: Option<VirtualKeyCode>)
    ensures
        key == char_key(c),
        forall|k: VirtualKeyCode| key == Some(k) <==> #[trigger] types(k, c),
{
    proof {
        assert forall|k: VirtualKeyCode| char_key(c) == Some(k) <==> #[trigger] types(k, c) by {
            lemma_char_key_inverts_glyphs(k, c);
        }
    }
    Some(
        match c {
            'a' | 'A' => VirtualKeyCode::A,
            'b' | 'B' => VirtualKeyCode::B,
            'c' | 'C' => VirtualKeyCode::C,
            'd' | 'D' => VirtualKeyCode::D,
            'e' | 'E' => VirtualKeyCode::E,
            'f' | 'F' => VirtualKeyCode::F,
            'g' | 'G' => VirtualKeyCode::G,
            'h' | 'H' => VirtualKeyCode::H,
            'i' | 'I' => VirtualKeyCode::I,
            'j' | 'J' => VirtualKeyCode::J,
            'k' | 'K' => VirtualKeyCode::K,
            'l' | 'L' => VirtualKeyCode::L,
            'm' | 'M' => VirtualKeyCode::M,
            'n' | 'N' => VirtualKeyCode::N,
            'o' | 'O' => VirtualKeyCode::O,
            'p' | 'P' => VirtualKeyCode::P,
            'q' | 'Q' => VirtualKeyCode::Q,
            'r' | 'R' => VirtualKeyCode::R,
            's' | 'S' => VirtualKeyCode::S,
            't' | 'T' => VirtualKeyCode::T,
            'u' | 'U' => VirtualKeyCode::U,
            'v' | 'V' => VirtualKeyCode::V,
            'w' | 'W' => VirtualKeyCode::W,
            'x' | 'X' => VirtualKeyCode::X,
            'y' | 'Y' => VirtualKeyCode::Y,
            'z' | 'Z' => VirtualKeyCode::Z,
            '1' | '!' => VirtualKeyCode::Key1,
            '2' | '@' => VirtualKeyCode::Key2,
            '3' | '#' => VirtualKeyCode::Key3,
            '4' | '$' => VirtualKeyCode::Key4,
            '5' | '%' => VirtualKeyCode::Key5,
            '6' | '^' => VirtualKeyCode::Key6,
            '7' | '&' => VirtualKeyCode::Key7,
            '8' | '*' => VirtualKeyCode::Key8,
            '9' | '(' => VirtualKeyCode::Key9,
            '0' | ')' => VirtualKeyCode::Key0,
            '=' | '+' => VirtualKeyCode::Equals,
            '-' | '_' => VirtualKeyCode::Minus,
            ']' | '}' => VirtualKeyCode::RBracket,
            '[' | '{' => VirtualKeyCode::LBracket,
            '\'' | '"' => VirtualKeyCode::Apostrophe,
            ';' | ':' => VirtualKeyCode::Semicolon,
            '\\' | '|' => VirtualKeyCode::Backslash,
            ',' | '<' => VirtualKeyCode::Comma,
            '/' | '?' => VirtualKeyCode::Slash,
            '.' | '>' => VirtualKeyCode::Period,
            '`' | '~' => VirtualKeyCode::Grave,
            _ => return None,
        },
    )
}

/// The character that a key types under the given modifiers.
pub fn keycode_to_char(keycode: VirtualKeyCode, modifiers_state: ModifiersState) -> (c: Option<char>)
    ensures
        c == key_char(keycode, modifiers_state@.contains(Modifier::Shift)),
{
    Some(
        match (keycode, modifiers_state.shift()) {
            (VirtualKeyCode::A, false) => 'a',
            (VirtualKeyCode::A, true) => 'A',
            (VirtualKeyCode::B, false) => 'b',
            (VirtualKeyCode::B, true) => 'B',
            (VirtualKeyCode::C, false) => 'c',
            (VirtualKeyCode::C, true) => 'C',
            (VirtualKeyCode::D, false) => 'd',
            (VirtualKeyCode::D, true) => 'D',
            (VirtualKeyCode::E, false) => 'e',
            (VirtualKeyCode::E, true) => 'E',
            (VirtualKeyCode::F, false) => 'f',
            (VirtualKeyCode::F, true) => 'F',
            (VirtualKeyCode::G, false) => 'g',
            (VirtualKeyCode::G, true) => 'G',
            (VirtualKeyCode::H, false) => 'h',
            (VirtualKeyCode::H, true) => 'H',
            (VirtualKeyCode::I, false) => 'i',
            (VirtualKeyCode::I, true) => 'I',
            (VirtualKeyCode::J, false) => 'j',
            (VirtualKeyCode::J, true) => 'J',
            (VirtualKeyCode::K, false) => 'k',
            (VirtualKeyCode::K, true) => 'K',
            (VirtualKeyCode::L, false) => 'l',
            (VirtualKeyCode::L, true) => 'L',
            (VirtualKeyCode::M, false) => 'm',
            (VirtualKeyCode::M, true) => 'M',
            (VirtualKeyCode::N, false) => 'n',
            (VirtualKeyCode::N, true) => 'N',
            (VirtualKeyCode::O, false) => 'o',
            (VirtualKeyCode::O, true) => 'O',
            (VirtualKeyCode::P, false) => 'p',
            (VirtualKeyCode::P, true) => 'P',
            (VirtualKeyCode::Q, false) => 'q',
            (VirtualKeyCode::Q, true) => 'Q',
            (VirtualKeyCode::R, false) => 'r',
            (VirtualKeyCode::R, true) => 'R',
            (VirtualKeyCode::S, false) => 's',
            (VirtualKeyCode::S, true) => 'S',
            (VirtualKeyCode::T, false) => 't',
            (VirtualKeyCode::T, true) => 'T',
            (VirtualKeyCode::U, false) => 'u',
            (VirtualKeyCode::U, true) => 'U',
            (VirtualKeyCode::V, false) => 'v',
            (VirtualKeyCode::V, true) => 'V',
            (VirtualKeyCode::W, false) => 'w',
            (VirtualKeyCode::W, true) => 'W',
            (VirtualKeyCode::X, false) => 'x',
            (VirtualKeyCode::X, true) => 'X',
            (VirtualKeyCode::Y, false) => 'y',
            (VirtualKeyCode::Y, true) => 'Y',
            (VirtualKeyCode::Z, false) => 'z',
            (VirtualKeyCode::Z, true) => 'Z',
            (VirtualKeyCode::Key1, false) => '1',
            (VirtualKeyCode::Key1, true) => '!',
            (VirtualKeyCode::Key2, false) => '2',
            (VirtualKeyCode::Key2, true) => '@',
            (VirtualKeyCode::Key3, false) => '3',
            (VirtualKeyCode::Key3, true) => '#',
            (VirtualKeyCode::Key4, false) => '4',
            (VirtualKeyCode::Key4, true) => '$',
            (VirtualKeyCode::Key5, false) => '5',
            (VirtualKeyCode::Key5, true) => '%',
            (VirtualKeyCode::Key6, false) => '6',
            (VirtualKeyCode::Key6, true) => '^',
            (VirtualKeyCode::Key7, false) => '7',
            (VirtualKeyCode::Key7, true) => '&',
            (VirtualKeyCode::Key8, false) => '8',
            (VirtualKeyCode::Key8, true) => '*',
            (VirtualKeyCode::Key9, false) => '9',
            (VirtualKeyCode::Key9, true) => '(',
            (VirtualKeyCode::Key0, false) => '0',
            (VirtualKeyCode::Key0, true) => ')',
            (VirtualKeyCode::Equals, false) => '=',
            (VirtualKeyCode::Equals, true) => '+',
            (VirtualKeyCode::Minus, false) => '-',
            (VirtualKeyCode::Minus, true) => '_',
            (VirtualKeyCode::RBracket, false) => ']',
            (VirtualKeyCode::RBracket, true) => '}',
            (VirtualKeyCode::LBracket, false) => '[',
            (VirtualKeyCode::LBracket, true) => '{',
            (VirtualKeyCode::Apostrophe, false) => '\'',
            (VirtualKeyCode::Apostrophe, true) => '"',
            (VirtualKeyCode::Semicolon, false) => ';',
            (VirtualKeyCode::Semicolon, true) => ':',
            (VirtualKeyCode::Backslash, false) => '\\',
            (VirtualKeyCode::Backslash, true) => '|',
            (VirtualKeyCode::Comma, false) => ',',
            (VirtualKeyCode::Comma, true) => '<',
            (VirtualKeyCode::Slash, false) => '/',
            (VirtualKeyCode::Slash, true) => '?',
            (VirtualKeyCode::Period, false) => '.',
            (VirtualKeyCode::Period, true) => '>',
            (VirtualKeyCode::Grave, false) => '`',
            (VirtualKeyCode::Grave, true) => '~',
            _ => return None,
        },
    )
}

} // verus!
