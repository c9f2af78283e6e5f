//! From the host's modifier flags to a [`ModifiersState`].

use vstd::prelude::*;
use crate::modifiers::{Modifier, ModifiersState};

verus! {

/// The host's flag for a shift key.
pub const NS_SHIFT_KEY_MASK: u64 = 0x20000;

/// The host's flag for a control key.
pub const NS_CONTROL_KEY_MASK: u64 = 0x40000;

/// The host's flag for an alt (option) key.
pub const NS_ALTERNATE_KEY_MASK: u64 = 0x80000;

/// The host's flag for a logo (command) key.
pub const NS_COMMAND_KEY_MASK: u64 = 0x100000;

/// The four flags above together.
pub const NS_MODIFIER_KEY_MASKS: u64 = 0x1e0000;

/// The host's flag for a modifier.
pub open spec fn native_mask(m: Modifier) -> u64 {
    match m {
        Modifier::Shift => NS_SHIFT_KEY_MASK,
        Modifier::Ctrl => NS_CONTROL_KEY_MASK,
        Modifier::Alt => NS_ALTERNATE_KEY_MASK,
        Modifier::Logo => NS_COMMAND_KEY_MASK,
    }
}

/// The modifiers whose flag is set in the host's `flags`. Its other flags
/// (caps lock, the numeric pad, help, fn) stand for no modifier.
pub open spec fn native_modifiers(flags: u64) -> Set<Modifier> {
    Set::new(|m: Modifier| flags & native_mask(m) != 0)
}

/// The modifiers that the host's flags of an event say are down.
pub fn event_mods(flags: u64) -> (m: ModifiersState)
    ensures
        m@ == native_modifiers(flags),
{
    let mut m = ModifiersState::empty();
    m.set(ModifiersState::single(Modifier::Shift), flags & NS_SHIFT_KEY_MASK != 0);
    m.set(ModifiersState::single(Modifier::Ctrl), flags & NS_CONTROL_KEY_MASK != 0);
    m.set(ModifiersState::single(Modifier::Alt), flags & NS_ALTERNATE_KEY_MASK != 0);
    m.set(ModifiersState::single(Modifier::Logo), flags & NS_COMMAND_KEY_MASK != 0);
    m
}

/// For a mask made of modifier flags only, the host's own test that `flags`
/// holds all of `keymask` agrees with the test on the modifiers that the two
/// stand for.
pub proof fn lemma_native_contains(flags: u64, keymask: u64)
    requires
        keymask & !NS_MODIFIER_KEY_MASKS == 0,
    ensures
        flags & keymask == keymask <==> native_modifiers(keymask).subset_of(
            native_modifiers(flags),
        ),
{
    assert(keymask & !0x1e0000u64 == 0 ==> ((flags & keymask == keymask) <==> {
        &&& (keymask & 0x20000u64 != 0 ==> flags & 0x20000u64 != 0)
        &&& (keymask & 0x40000u64 != 0 ==> flags & 0x40000u64 != 0)
        &&& (keymask & 0x80000u64 != 0 ==> flags & 0x80000u64 != 0)
        &&& (keymask & 0x100000u64 != 0 ==> flags & 0x100000u64 != 0)
    })) by (bit_vector);
    let wanted = native_modifiers(keymask);
    let down = native_modifiers(flags);
    if wanted.subset_of(down) {
        assert(wanted.contains(Modifier::Shift) ==> down.contains(Modifier::Shift));
        assert(wanted.contains(Modifier::Ctrl) ==> down.contains(Modifier::Ctrl));
        assert(wanted.contains(Modifier::Alt) ==> down.contains(Modifier::Alt));
        assert(wanted.contains(Modifier::Logo) ==> down.contains(Modifier::Logo));
    }
}

} // verus!
