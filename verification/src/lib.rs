//! Layout-independent keyboard input for a macOS event loop.
//!
//! The host reports a key as a hardware position (a scancode), as the text it
//! typed, or, for modifier keys, only as a change of an ambient bitmask. This
//! crate turns each of these into a [`VirtualKeyCode`], and turns a change of
//! the modifier bitmask into the press or release event that the host did not
//! send. Every function is pure; what a caller has to remember between two
//! events (whether a modifier key was last seen pressed) is passed in.

pub mod chars;
pub mod function_keys;
pub mod input;
pub mod keycode;
pub mod modifiers;
pub mod native;
pub mod scancode;

pub use chars::{char_to_keycode, keycode_to_char};
pub use function_keys::check_function_keys;
pub use input::{modifier_event, ElementState, KeyboardInputEvent};
pub use keycode::VirtualKeyCode;
pub use modifiers::{Modifier, ModifiersState};
pub use native::event_mods;
pub use scancode::scancode_to_keycode;
