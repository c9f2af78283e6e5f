use mac_keyboard::{
    char_to_keycode, keycode_to_char, scancode_to_keycode, Modifier, ModifiersState,
    VirtualKeyCode,
};

/// The plain character, the shifted character and the key of each letter.
const LETTERS: [(char, char, VirtualKeyCode); 26] = [
    ('a', 'A', VirtualKeyCode::A),
    ('b', 'B', VirtualKeyCode::B),
    ('c', 'C', VirtualKeyCode::C),
    ('d', 'D', VirtualKeyCode::D),
    ('e', 'E', VirtualKeyCode::E),
    ('f', 'F', VirtualKeyCode::F),
    ('g', 'G', VirtualKeyCode::G),
    ('h', 'H', VirtualKeyCode::H),
    ('i', 'I', VirtualKeyCode::I),
    ('j', 'J', VirtualKeyCode::J),
    ('k', 'K', VirtualKeyCode::K),
    ('l', 'L', VirtualKeyCode::L),
    ('m', 'M', VirtualKeyCode::M),
    ('n', 'N', VirtualKeyCode::N),
    ('o', 'O', VirtualKeyCode::O),
    ('p', 'P', VirtualKeyCode::P),
    ('q', 'Q', VirtualKeyCode::Q),
    ('r', 'R', VirtualKeyCode::R),
    ('s', 'S', VirtualKeyCode::S),
    ('t', 'T', VirtualKeyCode::T),
    ('u', 'U', VirtualKeyCode::U),
    ('v', 'V', VirtualKeyCode::V),
    ('w', 'W', VirtualKeyCode::W),
    ('x', 'X', VirtualKeyCode::X),
    ('y', 'Y', VirtualKeyCode::Y),
    ('z', 'Z', VirtualKeyCode::Z),
];

/// The same for the digit row.
const DIGITS: [(char, char, VirtualKeyCode); 10] = [
    ('1', '!', VirtualKeyCode::Key1),
    ('2', '@', VirtualKeyCode::Key2),
    ('3', '#', VirtualKeyCode::Key3),
    ('4', '$', VirtualKeyCode::Key4),
    ('5', '%', VirtualKeyCode::Key5),
    ('6', '^', VirtualKeyCode::Key6),
    ('7', '&', VirtualKeyCode::Key7),
    ('8', '*', VirtualKeyCode::Key8),
    ('9', '(', VirtualKeyCode::Key9),
    ('0', ')', VirtualKeyCode::Key0),
];

/// The same for the punctuation keys.
const PUNCTUATION: [(char, char, VirtualKeyCode); 11] = [
    ('=', '+', VirtualKeyCode::Equals),
    ('-', '_', VirtualKeyCode::Minus),
    (']', '}', VirtualKeyCode::RBracket),
    ('[', '{', VirtualKeyCode::LBracket),
    ('\'', '"', VirtualKeyCode::Apostrophe),
    (';', ':', VirtualKeyCode::Semicolon),
    ('\\', '|', VirtualKeyCode::Backslash),
    (',', '<', VirtualKeyCode::Comma),
    ('/', '?', VirtualKeyCode::Slash),
    ('.', '>', VirtualKeyCode::Period),
    ('`', '~', VirtualKeyCode::Grave),
];

fn shifted() -> ModifiersState {
    ModifiersState::single(Modifier::Shift)
}

fn unshifted() -> ModifiersState {
    ModifiersState::empty()
}

fn check_rows(rows: &[(char, char, VirtualKeyCode)]) {
    let mut i: usize = 0;
    while i < rows.len() {
        let (plain, with_shift, key) = rows[i];
        assert_eq!(char_to_keycode(plain), Some(key), "{:?}", plain);
        assert_eq!(char_to_keycode(with_shift), Some(key), "{:?}", with_shift);
        assert_eq!(keycode_to_char(key, unshifted()), Some(plain), "{:?}", key);
        assert_eq!(keycode_to_char(key, shifted()), Some(with_shift), "{:?}", key);
        i += 1;
    }
}

#[test]
fn letters_map_both_ways() {
    check_rows(&LETTERS);
}

#[test]
fn digits_map_both_ways() {
    check_rows(&DIGITS);
}

#[test]
fn punctuation_maps_both_ways() {
    check_rows(&PUNCTUATION);
}

#[test]
fn key1_types_one_and_exclamation_mark() {
    assert_eq!(keycode_to_char(VirtualKeyCode::Key1, unshifted()), Some('1'));
    assert_eq!(keycode_to_char(VirtualKeyCode::Key1, shifted()), Some('!'));
    assert_eq!(char_to_keycode('1'), Some(VirtualKeyCode::Key1));
    assert_eq!(char_to_keycode('!'), Some(VirtualKeyCode::Key1));
}

#[test]
fn shift_pairs_of_a_few_keys() {
    assert_eq!(keycode_to_char(VirtualKeyCode::A, unshifted()), Some('a'));
    assert_eq!(keycode_to_char(VirtualKeyCode::A, shifted()), Some('A'));
    assert_eq!(keycode_to_char(VirtualKeyCode::Key2, shifted()), Some('@'));
    assert_eq!(keycode_to_char(VirtualKeyCode::Key6, shifted()), Some('^'));
    assert_eq!(keycode_to_char(VirtualKeyCode::Key0, shifted()), Some(')'));
    assert_eq!(keycode_to_char(VirtualKeyCode::Apostrophe, unshifted()), Some('\''));
    assert_eq!(keycode_to_char(VirtualKeyCode::Apostrophe, shifted()), Some('"'));
    assert_eq!(keycode_to_char(VirtualKeyCode::Backslash, unshifted()), Some('\\'));
    assert_eq!(keycode_to_char(VirtualKeyCode::Backslash, shifted()), Some('|'));
    assert_eq!(keycode_to_char(VirtualKeyCode::Grave, unshifted()), Some('`'));
    assert_eq!(keycode_to_char(VirtualKeyCode::Grave, shifted()), Some('~'));
}

#[test]
fn shift_always_changes_the_character() {
    let tables: [&[(char, char, VirtualKeyCode)]; 3] = [&LETTERS, &DIGITS, &PUNCTUATION];
    let mut t: usize = 0;
    while t < tables.len() {
        let mut i: usize = 0;
        while i < tables[t].len() {
            let key = tables[t][i].2;
            assert_ne!(keycode_to_char(key, unshifted()), keycode_to_char(key, shifted()));
            i += 1;
        }
        t += 1;
    }
}

#[test]
fn typed_character_resolves_to_its_key() {
    let states: [ModifiersState; 2] = [unshifted(), shifted()];
    let mut code: u16 = 0;
    let mut with_char: usize = 0;
    while code <= 0x7f {
        if let Some(key) = scancode_to_keycode(code) {
            let mut s: usize = 0;
            while s < states.len() {
                if let Some(c) = keycode_to_char(key, states[s]) {
                    assert_eq!(char_to_keycode(c), Some(key));
                    with_char += 1;
                }
                s += 1;
            }
        }
        code += 1;
    }
    assert_eq!(with_char, 94);
}

#[test]
fn resolved_key_types_the_character() {
    let mut resolved: usize = 0;
    let mut n: u32 = 0;
    while n < 0x3000 {
        if let Some(c) = char::from_u32(n) {
            match char_to_keycode(c) {
                Some(key) => {
                    let plain = keycode_to_char(key, unshifted());
                    let with_shift = keycode_to_char(key, shifted());
                    assert!(plain == Some(c) || with_shift == Some(c), "{:?}", c);
                    resolved += 1;
                },
                None => {},
            }
        }
        n += 1;
    }
    assert_eq!(resolved, 94);
}

#[test]
fn only_shift_selects_the_character() {
    let mut others = ModifiersState::single(Modifier::Ctrl);
    others.insert(ModifiersState::single(Modifier::Alt));
    others.insert(ModifiersState::single(Modifier::Logo));
    assert_eq!(keycode_to_char(VirtualKeyCode::Q, others), Some('q'));
    assert_eq!(keycode_to_char(VirtualKeyCode::Slash, others), Some('/'));
    let all = others.union(shifted());
    assert_eq!(keycode_to_char(VirtualKeyCode::Q, all), Some('Q'));
    assert_eq!(keycode_to_char(VirtualKeyCode::Slash, all), Some('?'));
}

#[test]
fn characters_outside_the_table_have_no_key() {
    assert_eq!(char_to_keycode(' '), None);
    assert_eq!(char_to_keycode('\n'), None);
    assert_eq!(char_to_keycode('\t'), None);
    assert_eq!(char_to_keycode('\0'), None);
    assert_eq!(char_to_keycode('\u{7f}'), None);
    assert_eq!(char_to_keycode('\u{e9}'), None);
    assert_eq!(char_to_keycode('\u{df}'), None);
    assert_eq!(char_to_keycode('\u{44f}'), None);
    assert_eq!(char_to_keycode('\u{20ac}'), None);
    assert_eq!(char_to_keycode('\u{a5}'), None);
    assert_eq!(char_to_keycode('\u{f718}'), None);
    assert_eq!(char_to_keycode('\u{1f600}'), None);
    assert_eq!(char_to_keycode(char::MAX), None);
}

#[test]
fn keys_without_a_character() {
    let keys: [VirtualKeyCode; 24] = [
        VirtualKeyCode::Escape,
        VirtualKeyCode::Return,
        VirtualKeyCode::Space,
        VirtualKeyCode::Tab,
        VirtualKeyCode::Back,
        VirtualKeyCode::Left,
        VirtualKeyCode::Up,
        VirtualKeyCode::PageDown,
        VirtualKeyCode::Home,
        VirtualKeyCode::Insert,
        VirtualKeyCode::F1,
        VirtualKeyCode::F12,
        VirtualKeyCode::F21,
        VirtualKeyCode::F24,
        VirtualKeyCode::LShift,
        VirtualKeyCode::RShift,
        VirtualKeyCode::LControl,
        VirtualKeyCode::RAlt,
        VirtualKeyCode::LWin,
        VirtualKeyCode::Numpad0,
        VirtualKeyCode::Add,
        VirtualKeyCode::NumpadEnter,
        VirtualKeyCode::Caret,
        VirtualKeyCode::Yen,
    ];
    let mut i: usize = 0;
    while i < keys.len() {
        assert_eq!(keycode_to_char(keys[i], unshifted()), None, "{:?}", keys[i]);
        assert_eq!(keycode_to_char(keys[i], shifted()), None, "{:?}", keys[i]);
        i += 1;
    }
}

#[test]
fn exactly_forty_seven_keys_type_a_character() {
    let mut code: u16 = 0;
    let mut typing: usize = 0;
    while code <= 0x7f {
        if let Some(key) = scancode_to_keycode(code) {
            let plain = keycode_to_char(key, unshifted());
            let with_shift = keycode_to_char(key, shifted());
            assert_eq!(plain.is_some(), with_shift.is_some(), "{:?}", key);
            if plain.is_some() {
                typing += 1;
            }
        }
        code += 1;
    }
    assert_eq!(typing, 47);
    assert_eq!(LETTERS.len() + DIGITS.len() + PUNCTUATION.len(), 47);
}
