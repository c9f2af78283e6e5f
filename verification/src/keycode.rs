//! The virtual key identities that the keyboard tables speak of.

use vstd::prelude::*;

verus! {

/// The identity of a key, independent of the keyboard layout and of the
/// hardware position that produced it.
#[derive(Debug, Clone, Copy, PartialEq, Eq, Hash, Structural)]
pub enum VirtualKeyCode {
    /// The '1' key over the letters.
    Key1,
    /// The '2' key over the letters.
    Key2,
    /// The '3' key over the letters.
    Key3,
    /// The '4' key over the letters.
    Key4,
    /// The '5' key over the letters.
    Key5,
    /// The '6' key over the letters.
    Key6,
    /// The '7' key over the letters.
    Key7,
    /// The '8' key over the letters.
    Key8,
    /// The '9' key over the letters.
    Key9,
    /// The '0' key over the 'O' and 'P' keys.
    Key0,
    A,
    B,
    C,
    D,
    E,
    F,
    G,
    H,
    I,
    J,
    K,
    L,
    M,
    N,
    O,
    P,
    Q,
    R,
    S,
    T,
    U,
    V,
    W,
    X,
    Y,
    Z,
    /// The Escape key, next to F1.
    Escape,
    F1,
    F2,
    F3,
    F4,
    F5,
    F6,
    F7,
    F8,
    F9,
    F10,
    F11,
    F12,
    F13,
    F14,
    F15,
    F16,
    F17,
    F18,
    F19,
    F20,
    F21,
    F22,
    F23,
    F24,
    /// `Insert`, next to Backspace.
    Insert,
    Home,
    Delete,
    End,
    PageDown,
    PageUp,
    Left,
    Up,
    Right,
    Down,
    /// The Backspace key, right over Enter.
    Back,
    /// The Enter key.
    Return,
    /// The space bar.
    Space,
    /// The key left of '1' on some ISO keyboards.
    Caret,
    Numlock,
    Numpad0,
    Numpad1,
    Numpad2,
    Numpad3,
    Numpad4,
    Numpad5,
    Numpad6,
    Numpad7,
    Numpad8,
    Numpad9,
    /// '+' on the numeric keypad.
    Add,
    Apostrophe,
    Backslash,
    Comma,
    /// '.' on the numeric keypad.
    Decimal,
    /// '/' on the numeric keypad.
    Divide,
    Equals,
    Grave,
    LAlt,
    LBracket,
    LControl,
    LShift,
    /// The left logo (command) key.
    LWin,
    Minus,
    /// '*' on the numeric keypad.
    Multiply,
    NumpadEnter,
    NumpadEquals,
    Period,
    RAlt,
    RBracket,
    RControl,
    RShift,
    /// The right logo (command) key.
    RWin,
    Semicolon,
    Slash,
    /// '-' on the numeric keypad.
    Subtract,
    Tab,
    VolumeDown,
    VolumeUp,
    Yen,
}

} // verus!
