use mac_keyboard::native::{
    NS_ALTERNATE_KEY_MASK, NS_COMMAND_KEY_MASK, NS_CONTROL_KEY_MASK, NS_MODIFIER_KEY_MASKS,
    NS_SHIFT_KEY_MASK,
};
use mac_keyboard::{event_mods, Modifier, ModifiersState};

const CAPS_LOCK: u64 = 1 << 16;

const NUMERIC_PAD: u64 = 1 << 21;

const HELP: u64 = 1 << 22;

const FUNCTION: u64 = 1 << 23;

#[test]
fn native_masks_have_the_hosts_values() {
    assert_eq!(NS_SHIFT_KEY_MASK, 1 << 17);
    assert_eq!(NS_CONTROL_KEY_MASK, 1 << 18);
    assert_eq!(NS_ALTERNATE_KEY_MASK, 1 << 19);
    assert_eq!(NS_COMMAND_KEY_MASK, 1 << 20);
    assert_eq!(
        NS_MODIFIER_KEY_MASKS,
        NS_SHIFT_KEY_MASK | NS_CONTROL_KEY_MASK | NS_ALTERNATE_KEY_MASK | NS_COMMAND_KEY_MASK
    );
}

#[test]
fn no_flag_means_no_modifier() {
    assert_eq!(event_mods(0), ModifiersState::empty());
    assert!(event_mods(0).is_empty());
}

#[test]
fn each_native_flag_means_its_modifier() {
    assert_eq!(event_mods(NS_SHIFT_KEY_MASK), ModifiersState::single(Modifier::Shift));
    assert_eq!(event_mods(NS_CONTROL_KEY_MASK), ModifiersState::single(Modifier::Ctrl));
    assert_eq!(event_mods(NS_ALTERNATE_KEY_MASK), ModifiersState::single(Modifier::Alt));
    assert_eq!(event_mods(NS_COMMAND_KEY_MASK), ModifiersState::single(Modifier::Logo));
    assert_eq!(event_mods(0x20000), ModifiersState::single(Modifier::Shift));
    assert_eq!(event_mods(0x100000), ModifiersState::single(Modifier::Logo));
}

#[test]
fn native_flags_combine() {
    let m = event_mods(NS_SHIFT_KEY_MASK | NS_COMMAND_KEY_MASK);
    assert!(m.shift() && !m.ctrl() && !m.alt() && m.logo());
    let m = event_mods(NS_CONTROL_KEY_MASK | NS_ALTERNATE_KEY_MASK);
    assert!(!m.shift() && m.ctrl() && m.alt() && !m.logo());
    let m = event_mods(NS_MODIFIER_KEY_MASKS);
    assert!(m.shift() && m.ctrl() && m.alt() && m.logo());
}

#[test]
fn other_native_flags_mean_no_modifier() {
    assert!(event_mods(CAPS_LOCK).is_empty());
    assert!(event_mods(NUMERIC_PAD).is_empty());
    assert!(event_mods(HELP).is_empty());
    assert!(event_mods(FUNCTION).is_empty());
    assert!(event_mods(0xffff).is_empty());
    assert!(event_mods(!NS_MODIFIER_KEY_MASKS).is_empty());
    assert_eq!(
        event_mods(CAPS_LOCK | NS_SHIFT_KEY_MASK | 0x102),
        ModifiersState::single(Modifier::Shift)
    );
    assert_eq!(event_mods(u64::MAX), event_mods(NS_MODIFIER_KEY_MASKS));
}

#[test]
fn every_combination_of_native_flags() {
    let masks: [(u64, Modifier); 4] = [
        (NS_SHIFT_KEY_MASK, Modifier::Shift),
        (NS_CONTROL_KEY_MASK, Modifier::Ctrl),
        (NS_ALTERNATE_KEY_MASK, Modifier::Alt),
        (NS_COMMAND_KEY_MASK, Modifier::Logo),
    ];
    let mut n: usize = 0;
    while n < 16 {
        let mut flags: u64 = CAPS_LOCK | 0x100;
        let mut i: usize = 0;
        while i < masks.len() {
            if n >> i & 1 == 1 {
                flags |= masks[i].0;
            }
            i += 1;
        }
        let m = event_mods(flags);
        let mut i: usize = 0;
        while i < masks.len() {
            assert_eq!(m.has(masks[i].1), n >> i & 1 == 1);
            i += 1;
        }
        n += 1;
    }
}

#[test]
fn native_containment_agrees_with_the_converted_states() {
    let mut flags: u64 = 0;
    while flags <= NS_MODIFIER_KEY_MASKS + CAPS_LOCK {
        let mut keymask: u64 = 0;
        while keymask <= NS_MODIFIER_KEY_MASKS {
            if keymask & !NS_MODIFIER_KEY_MASKS == 0 {
                assert_eq!(
                    flags & keymask == keymask,
                    event_mods(flags).contains(event_mods(keymask))
                );
            }
            keymask += NS_SHIFT_KEY_MASK;
        }
        flags += CAPS_LOCK;
    }
}
