//! From a hardware key position to a virtual key.

use vstd::prelude::*;
use crate::keycode::VirtualKeyCode;

verus! {

/// The largest scancode that the keyboard hardware reports.
pub const MAX_SCANCODE: u16 = 0x7f;

/// The scancode table: the virtual key at each hardware position, `None` for
/// a position that has no stable identity.
pub open spec fn scancode_key(scancode: u16) -> Option<VirtualKeyCode> {
    match scancode {
        0x00 => Some(VirtualKeyCode::A),
        0x01 => Some(VirtualKeyCode::S),
        0x02 => Some(VirtualKeyCode::D),
        0x03 => Some(VirtualKeyCode::F),
        0x04 => Some(VirtualKeyCode::H),
        0x05 => Some(VirtualKeyCode::G),
        0x06 => Some(VirtualKeyCode::Z),
        0x07 => Some(VirtualKeyCode::X),
        0x08 => Some(VirtualKeyCode::C),
        0x09 => Some(VirtualKeyCode::V),
        // The key left of '1' on ISO keyboards.
        0x0a => Some(VirtualKeyCode::Caret),
        0x0b => Some(VirtualKeyCode::B),
        0x0c => Some(VirtualKeyCode::Q),
        0x0d => Some(VirtualKeyCode::W),
        0x0e => Some(VirtualKeyCode::E),
        0x0f => Some(VirtualKeyCode::R),
        0x10 => Some(VirtualKeyCode::Y),
        0x11 => Some(VirtualKeyCode::T),
        0x12 => Some(VirtualKeyCode::Key1),
        0x13 => Some(VirtualKeyCode::Key2),
        0x14 => Some(VirtualKeyCode::Key3),
        0x15 => Some(VirtualKeyCode::Key4),
        0x16 => Some(VirtualKeyCode::Key6),
        0x17 => Some(VirtualKeyCode::Key5),
        0x18 => Some(VirtualKeyCode::Equals),
        0x19 => Some(VirtualKeyCode::Key9),
        0x1a => Some(VirtualKeyCode::Key7),
        0x1b => Some(VirtualKeyCode::Minus),
        0x1c => Some(VirtualKeyCode::Key8),
        0x1d => Some(VirtualKeyCode::Key0),
        0x1e => Some(VirtualKeyCode::RBracket),
        0x1f => Some(VirtualKeyCode::O),
        0x20 => Some(VirtualKeyCode::U),
        0x21 => Some(VirtualKeyCode::LBracket),
        0x22 => Some(VirtualKeyCode::I),
        0x23 => Some(VirtualKeyCode::P),
        0x24 => Some(VirtualKeyCode::Return),
        0x25 => Some(VirtualKeyCode::L),
        0x26 => Some(VirtualKeyCode::J),
        0x27 => Some(VirtualKeyCode::Apostrophe),
        0x28 => Some(VirtualKeyCode::K),
        0x29 => Some(VirtualKeyCode::Semicolon),
        0x2a => Some(VirtualKeyCode::Backslash),
        0x2b => Some(VirtualKeyCode::Comma),
        0x2c => Some(VirtualKeyCode::Slash),
        0x2d => Some(VirtualKeyCode::N),
        0x2e => Some(VirtualKeyCode::M),
        0x2f => Some(VirtualKeyCode::Period),
        0x30 => Some(VirtualKeyCode::Tab),
        0x31 => Some(VirtualKeyCode::Space),
        0x32 => Some(VirtualKeyCode::Grave),
        0x33 => Some(VirtualKeyCode::Back),
        0x35 => Some(VirtualKeyCode::Escape),
        0x36 => Some(VirtualKeyCode::RWin),
        0x37 => Some(VirtualKeyCode::LWin),
        0x38 => Some(VirtualKeyCode::LShift),
        0x3a => Some(VirtualKeyCode::LAlt),
        0x3b => Some(VirtualKeyCode::LControl),
        0x3c => Some(VirtualKeyCode::RShift),
        0x3d => Some(VirtualKeyCode::RAlt),
        0x3e => Some(VirtualKeyCode::RControl),
        0x40 => Some(VirtualKeyCode::F17),
        0x41 => Some(VirtualKeyCode::Decimal),
        0x43 => Some(VirtualKeyCode::Multiply),
        0x45 => Some(VirtualKeyCode::Add),
        0x47 => Some(VirtualKeyCode::Numlock),
        0x49 => Some(VirtualKeyCode::VolumeUp),
        0x4a => Some(VirtualKeyCode::VolumeDown),
        0x4b => Some(VirtualKeyCode::Divide),
        0x4c => Some(VirtualKeyCode::NumpadEnter),
        0x4e => Some(VirtualKeyCode::Subtract),
        0x4f => Some(VirtualKeyCode::F18),
        0x50 => Some(VirtualKeyCode::F19),
        0x51 => Some(VirtualKeyCode::NumpadEquals),
        0x52 => Some(VirtualKeyCode::Numpad0),
        0x53 => Some(VirtualKeyCode::Numpad1),
        0x54 => Some(VirtualKeyCode::Numpad2),
        0x55 => Some(VirtualKeyCode::Numpad3),
        0x56 => Some(VirtualKeyCode::Numpad4),
        0x57 => Some(VirtualKeyCode::Numpad5),
        0x58 => Some(VirtualKeyCode::Numpad6),
        0x59 => Some(VirtualKeyCode::Numpad7),
        0x5a => Some(VirtualKeyCode::F20),
        0x5b => Some(VirtualKeyCode::Numpad8),
        0x5c => Some(VirtualKeyCode::Numpad9),
        0x5d => Some(VirtualKeyCode::Yen),
        0x60 => Some(VirtualKeyCode::F5),
        0x61 => Some(VirtualKeyCode::F6),
        0x62 => Some(VirtualKeyCode::F7),
        0x63 => Some(VirtualKeyCode::F3),
        0x64 => Some(VirtualKeyCode::F8),
        0x65 => Some(VirtualKeyCode::F9),
        0x67 => Some(VirtualKeyCode::F11),
        0x69 => Some(VirtualKeyCode::F13),
        0x6a => Some(VirtualKeyCode::F16),
        0x6b => Some(VirtualKeyCode::F14),
        0x6d => Some(VirtualKeyCode::F10),
        0x6f => Some(VirtualKeyCode::F12),
        0x71 => Some(VirtualKeyCode::F15),
        0x72 => Some(VirtualKeyCode::Insert),
        0x73 => Some(VirtualKeyCode::Home),
        0x74 => Some(VirtualKeyCode::PageUp),
        0x75 => Some(VirtualKeyCode::Delete),
        0x76 => Some(VirtualKeyCode::F4),
        0x77 => Some(VirtualKeyCode::End),
        0x78 => Some(VirtualKeyCode::F2),
        0x79 => Some(VirtualKeyCode::PageDown),
        0x7a => Some(VirtualKeyCode::F1),
        0x7b => Some(VirtualKeyCode::Left),
        0x7c => Some(VirtualKeyCode::Right),
        0x7d => Some(VirtualKeyCode::Down),
        0x7e => Some(VirtualKeyCode::Up),
        _ => None,
    }
}

/// The positions up to [`MAX_SCANCODE`] that have no stable identity: caps
/// lock (0x39), the fn key (0x3f), keypad clear (0x48), the keys of JIS
/// keyboards (0x5e, 0x66, 0x68), and the codes that no key is known to send.
pub open spec fn reserved_scancode(scancode: u16) -> bool {
    scancode == 0x34 || scancode == 0x39 || scancode == 0x3f || scancode == 0x42 || scancode
        == 0x44 || scancode == 0x46 || scancode == 0x48 || scancode == 0x4d || scancode == 0x5e
        || scancode == 0x5f || scancode == 0x66 || scancode == 0x68 || scancode == 0x6c
        || scancode == 0x6e || scancode == 0x70 || scancode == 0x7f
}

/// The table is total: a scancode has a key exactly when it lies in the
/// hardware's range and is not reserved.
pub proof fn lemma_scancode_domain(scancode: u16)
    ensures
        scancode_key(scancode) is Some <==> scancode <= MAX_SCANCODE && !reserved_scancode(
            scancode,
        ),
{
}

/// No key stands at two positions.
pub proof fn lemma_one_scancode_per_key(a: u16, b: u16)
    requires
        scancode_key(a) is Some,
        scancode_key(a) == scancode_key(b),
    ensures
        a == b,
{
}

/// Looks a hardware key position up in the scancode table.
pub fn scancode_to_keycode(scancode: u16) -> (key: Option<VirtualKeyCode>)
    ensures
        key == scancode_key(scancode),
        key is Some <==> scancode <= MAX_SCANCODE && !reserved_scancode(scancode),
{
    Some(
        match scancode {
            0x00 => VirtualKeyCode::A,
            0x01 => VirtualKeyCode::S,
            0x02 => VirtualKeyCode::D,
            0x03 => VirtualKeyCode::F,
            0x04 => VirtualKeyCode::H,
            0x05 => VirtualKeyCode::G,
            0x06 => VirtualKeyCode::Z,
            0x07 => VirtualKeyCode::X,
            0x08 => VirtualKeyCode::C,
            0x09 => VirtualKeyCode::V,
            0x0a => VirtualKeyCode::Caret,
            0x0b => VirtualKeyCode::B,
            0x0c => VirtualKeyCode::Q,
            0x0d => VirtualKeyCode::W,
            0x0e => VirtualKeyCode::E,
            0x0f => VirtualKeyCode::R,
            0x10 => VirtualKeyCode::Y,
            0x11 => VirtualKeyCode::T,
            0x12 => VirtualKeyCode::Key1,
            0x13 => VirtualKeyCode::Key2,
            0x14 => VirtualKeyCode::Key3,
            0x15 => VirtualKeyCode::Key4,
            0x16 => VirtualKeyCode::Key6,
            0x17 => VirtualKeyCode::Key5,
            0x18 => VirtualKeyCode::Equals,
            0x19 => VirtualKeyCode::Key9,
            0x1a => VirtualKeyCode::Key7,
            0x1b => VirtualKeyCode::Minus,
            0x1c => VirtualKeyCode::Key8,
            0x1d => VirtualKeyCode::Key0,
            0x1e => VirtualKeyCode::RBracket,
            0x1f => VirtualKeyCode::O,
            0x20 => VirtualKeyCode::U,
            0x21 => VirtualKeyCode::LBracket,
            0x22 => VirtualKeyCode::I,
            0x23 => VirtualKeyCode::P,
            0x24 => VirtualKeyCode::Return,
            0x25 => VirtualKeyCode::L,
            0x26 => VirtualKeyCode::J,
            0x27 => VirtualKeyCode::Apostrophe,
            0x28 => VirtualKeyCode::K,
            0x29 => VirtualKeyCode::Semicolon,
            0x2a => VirtualKeyCode::Backslash,
            0x2b => VirtualKeyCode::Comma,
            0x2c => VirtualKeyCode::Slash,
            0x2d => VirtualKeyCode::N,
            0x2e => VirtualKeyCode::M,
            0x2f => VirtualKeyCode::Period,
            0x30 => VirtualKeyCode::Tab,
            0x31 => VirtualKeyCode::Space,
            0x32 => VirtualKeyCode::Grave,
            0x33 => VirtualKeyCode::Back,
            0x35 => VirtualKeyCode::Escape,
            0x36 => VirtualKeyCode::RWin,
            0x37 => VirtualKeyCode::LWin,
            0x38 => VirtualKeyCode::LShift,
            0x3a => VirtualKeyCode::LAlt,
            0x3b => VirtualKeyCode::LControl,
            0x3c => VirtualKeyCode::RShift,
            0x3d => VirtualKeyCode::RAlt,
            0x3e => VirtualKeyCode::RControl,
            0x40 => VirtualKeyCode::F17,
            0x41 => VirtualKeyCode::Decimal,
            0x43 => VirtualKeyCode::Multiply,
            0x45 => VirtualKeyCode::Add,
            0x47 => VirtualKeyCode::Numlock,
            0x49 => VirtualKeyCode::VolumeUp,
            0x4a => VirtualKeyCode::VolumeDown,
            0x4b => VirtualKeyCode::Divide,
            0x4c => VirtualKeyCode::NumpadEnter,
            0x4e => VirtualKeyCode::Subtract,
            0x4f => VirtualKeyCode::F18,
            0x50 => VirtualKeyCode::F19,
            0x51 => VirtualKeyCode::NumpadEquals,
            0x52 => VirtualKeyCode::Numpad0,
            0x53 => VirtualKeyCode::Numpad1,
            0x54 => VirtualKeyCode::Numpad2,
            0x55 => VirtualKeyCode::Numpad3,
            0x56 => VirtualKeyCode::Numpad4,
            0x57 => VirtualKeyCode::Numpad5,
            0x58 => VirtualKeyCode::Numpad6,
            0x59 => VirtualKeyCode::Numpad7,
            0x5a => VirtualKeyCode::F20,
            0x5b => VirtualKeyCode::Numpad8,
            0x5c => VirtualKeyCode::Numpad9,
            0x5d => VirtualKeyCode::Yen,
            0x60 => VirtualKeyCode::F5,
            0x61 => VirtualKeyCode::F6,
            0x62 => VirtualKeyCode::F7,
            0x63 => VirtualKeyCode::F3,
            0x64 => VirtualKeyCode::F8,
            0x65 => VirtualKeyCode::F9,
            0x67 => VirtualKeyCode::F11,
            0x69 => VirtualKeyCode::F13,
            0x6a => VirtualKeyCode::F16,
            0x6b => VirtualKeyCode::F14,
            0x6d => VirtualKeyCode::F10,
            0x6f => VirtualKeyCode::F12,
            0x71 => VirtualKeyCode::F15,
            0x72 => VirtualKeyCode::Insert,
            0x73 => VirtualKeyCode::Home,
            0x74 => VirtualKeyCode::PageUp,
            0x75 => VirtualKeyCode::Delete,
            0x76 => VirtualKeyCode::F4,
            0x77 => VirtualKeyCode::End,
            0x78 => VirtualKeyCode::F2,
            0x79 => VirtualKeyCode::PageDown,
            0x7a => VirtualKeyCode::F1,
            0x7b => VirtualKeyCode::Left,
            0x7c => VirtualKeyCode::Right,
            0x7d => VirtualKeyCode::Down,
            0x7e => VirtualKeyCode::Up,
            _ => return None,
        },
    )
}

} // verus!
