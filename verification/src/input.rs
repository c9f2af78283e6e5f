//! Press and release events for modifier keys.
//!
//! The host says that the modifier flags changed, not which key went down or
//! up. Whoever watches one modifier remembers whether it was last seen
//! pressed; held against the new flags, that tells whether the key was
//! pressed, released, or left alone.

use vstd::prelude::*;
use crate::keycode::VirtualKeyCode;
use crate::modifiers::ModifiersState;
use crate::scancode::{scancode_key, scancode_to_keycode};

verus! {

/// Whether a key went down or up.
#[derive(Debug, Clone, Copy, PartialEq, Eq, Hash, Structural)]
pub enum ElementState {
    Pressed,
    Released,
}

/// A key press or release, as handed to the event loop.
#[derive(Debug, Clone, Copy, PartialEq, Eq, Hash, Structural)]
pub struct KeyboardInputEvent {
    /// Whether the key went down or up.
    pub state: ElementState,
    /// The hardware position of the key.
    pub scancode: u16,
    /// The key at that position, `None` if the position has no stable
    /// identity.
    pub virtual_keycode: Option<VirtualKeyCode>,
    /// The modifiers that were down when the event arrived.
    pub modifiers: ModifiersState,
    /// Whether the event was made up to keep a window's state consistent,
    /// rather than caused by the keyboard.
    pub is_synthetic: bool,
}

/// The event that a change of the modifier flags means for one watched
/// modifier, `None` if the flags agree with what was last seen of it.
///
/// `flags` are the modifiers that are down now, `keymask` is the watched
/// modifier, `was_key_pressed` tells whether it was last seen pressed, and
/// `scancode` is the position of the key that changed the flags.
pub open spec fn modifier_transition(
    flags: ModifiersState,
    keymask: ModifiersState,
    was_key_pressed: bool,
    scancode: u16,
) -> Option<KeyboardInputEvent> {
    if flags.contains(keymask) != was_key_pressed {
        Some(
            KeyboardInputEvent {
                state: if was_key_pressed {
                    ElementState::Released
                } else {
                    ElementState::Pressed
                },
                scancode,
                virtual_keycode: scancode_key(scancode),
                modifiers: flags,
                is_synthetic: false,
            },
        )
    } else {
        None
    }
}

/// What the watcher of a modifier remembers after a call: the state that the
/// event reports, or, without an event, what it remembered before.
pub open spec fn pressed_after(was_key_pressed: bool, event: Option<KeyboardInputEvent>) -> bool {
    match event {
        Some(e) => e.state == ElementState::Pressed,
        None => was_key_pressed,
    }
}

/// A modifier that is down and was not seen pressed gives a press, one that
/// is up and was seen pressed gives a release, and nothing else gives an
/// event.
pub proof fn lemma_transition_cases(
    flags: ModifiersState,
    keymask: ModifiersState,
    was_key_pressed: bool,
    scancode: u16,
)
    ensures
        match modifier_transition(flags, keymask, was_key_pressed, scancode) {
            Some(e) => {
                &&& e.state == ElementState::Pressed <==> !was_key_pressed && flags.contains(
                    keymask,
                )
                &&& e.state == ElementState::Released <==> was_key_pressed && !flags.contains(
                    keymask,
                )
                &&& e.scancode == scancode
                &&& e.virtual_keycode == scancode_key(scancode)
                &&& e.modifiers == flags
                &&& !e.is_synthetic
            },
            None => was_key_pressed == flags.contains(keymask),
        },
{
}

/// What is remembered after a call agrees with the flags.
pub proof fn lemma_remembered_state(
    flags: ModifiersState,
    keymask: ModifiersState,
    was_key_pressed: bool,
    scancode: u16,
)
    ensures
        pressed_after(
            was_key_pressed,
            modifier_transition(flags, keymask, was_key_pressed, scancode),
        ) == flags.contains(keymask),
{
}

/// No event is made twice: once the watcher has taken note of a call's
/// result, the same flags give no event, whatever key they come with.
pub proof fn lemma_no_repeated_event(
    flags: ModifiersState,
    keymask: ModifiersState,
    was_key_pressed: bool,
    scancode: u16,
    next_scancode: u16,
)
    ensures
        modifier_transition(
            flags,
            keymask,
            pressed_after(
                was_key_pressed,
                modifier_transition(flags, keymask, was_key_pressed, scancode),
            ),
            next_scancode,
        ) is None,
{
}

/// Decides whether a change of the modifier flags is a press or a release of
/// the watched modifier, and makes the event for it.
pub fn modifier_event(
    flags: ModifiersState,
    keymask: ModifiersState,
    was_key_pressed: bool,
    scancode: u16,
) -> (event: Option<KeyboardInputEvent>)
    ensures
        event == modifier_transition(flags, keymask, was_key_pressed, scancode),
        event is None <==> was_key_pressed == flags.contains(keymask),
{
    let is_pressed = flags.contains(keymask);
    if !was_key_pressed && is_pressed || was_key_pressed && !is_pressed {
        let state = if was_key_pressed {
            ElementState::Released
        } else {
            ElementState::Pressed
        };
        let virtual_keycode = scancode_to_keycode(scancode);
        Some(
            KeyboardInputEvent {
                state,
                scancode,
                virtual_keycode,
                modifiers: flags,
                is_synthetic: false,
            },
        )
    } else {
        None
    }
}

} // verus!
